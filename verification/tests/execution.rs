use std::sync::Arc;

use mineintent_backend::command::{
    BackendCommand, BackendCommandEnvelope, CommandError, CommandProtocol, MotorDirection,
    SprintDirection, WalkDirection,
};
use mineintent_backend::config::RunConfig;
use mineintent_backend::contract::{
    Actuation, AttemptId, BackendError, BackendEventEnvelope, BackendState, CommandId, Operation,
    StopReason,
};
use mineintent_backend::driver::SpawnFollowUp;
use mineintent_backend::execution::{
    result_of_release, ActiveMovementRegistration, CommandStep, MoveFollowUp, MovePlan,
    ReleaseStep,
};
use mineintent_backend::handle::{RuntimeEventReceiver, RuntimeHandle};
use mineintent_backend::number::{Double, Single, Vec3Value};
use mineintent_backend::snapshot::{
    ExperienceSnapshot, InventorySnapshot, MinecraftSnapshotV1, SelfSnapshot, WorldSnapshot,
};
use mineintent_backend::state::{ClientRef, Effect};
use mineintent_backend::time::UtcInstant;

const AT: UtcInstant = UtcInstant { seconds: 1_700_000_000, nanos: 0 };
const CLIENT: ClientRef = ClientRef { entity: 5, attempt_token: Some(41) };

fn single(value: f32) -> Single {
    Single { bits: value.to_bits() }
}

fn vec3(x: f64, y: f64, z: f64) -> Vec3Value {
    Vec3Value {
        x: Double { bits: x.to_bits() },
        y: Double { bits: y.to_bits() },
        z: Double { bits: z.to_bits() },
    }
}

fn snapshot(epoch: u64, revision: u64, dimension: &str) -> MinecraftSnapshotV1 {
    MinecraftSnapshotV1 {
        snapshot_revision: revision,
        lifecycle_revision: 1,
        captured_at: AT,
        process_session_id: "session".to_owned(),
        connection_epoch: epoch,
        connection_attempt_id: AttemptId { epoch },
        world: WorldSnapshot {
            world_id: "world".to_owned(),
            dimension: dimension.to_owned(),
            minecraft_version: "26.1.2".to_owned(),
            protocol_version: 775,
            game_mode: "survival".to_owned(),
            min_y: -64,
            height: 384,
        },
        self_snapshot: SelfSnapshot {
            entity_key: "self".to_owned(),
            username: "Bot".to_owned(),
            position: vec3(0.5, 64.0, 0.5),
            velocity: vec3(0.0, 0.0, 0.0),
            yaw: single(0.0),
            pitch: single(0.0),
            on_ground: true,
            alive: true,
            health: single(20.0),
            food: 20,
            food_saturation: single(5.0),
            experience: ExperienceSnapshot { level: 0, progress: single(0.0), total: 0 },
        },
        inventory: InventorySnapshot { selected_hotbar_slot: 0, slots: Vec::new() },
        tracked_players: Vec::new(),
    }
}

fn runtime_with(config: RunConfig) -> (RuntimeHandle, RuntimeEventReceiver) {
    let mut handle = RuntimeHandle::new(config, "session".to_owned(), 7);
    let events = handle.subscribe();
    (handle, events)
}

fn runtime() -> (RuntimeHandle, RuntimeEventReceiver) {
    runtime_with(RunConfig::default())
}

/// A run whose first attempt belongs to `CLIENT`.
fn connected() -> (RuntimeHandle, RuntimeEventReceiver) {
    let (mut handle, events) = runtime();
    let config = RunConfig::default();
    assert_eq!(handle.shared.start_run(&config, AT), Ok(true));
    assert!(handle.shared.admit_canonical_join_source(41));
    assert!(handle.shared.admit_client(CLIENT, AT));
    drain(events, &mut handle);
    handle.shared.take_effects();
    (handle, events)
}

fn spawn_player(handle: &mut RuntimeHandle) -> SpawnFollowUp {
    handle.shared.observe_login(CLIENT, Some("minecraft:overworld".to_owned()), AT);
    let was_dead = handle.shared.admit_spawn(CLIENT, 3).expect("spawn");
    let published = Arc::new(snapshot(handle.connection_epoch(), 1, "minecraft:overworld"));
    handle.shared.observation.snapshot = Some(published.clone());
    handle.shared.complete_spawn(Some(published), was_dead, AT)
}

/// A run whose player stands in the world.
fn ready() -> (RuntimeHandle, RuntimeEventReceiver) {
    let (mut handle, events) = connected();
    spawn_player(&mut handle);
    drain(events, &mut handle);
    handle.shared.take_effects();
    (handle, events)
}

fn drain(
    events: RuntimeEventReceiver,
    handle: &mut RuntimeHandle,
) -> Vec<Arc<BackendEventEnvelope>> {
    std::iter::from_fn(|| events.try_recv(&mut handle.shared)).collect()
}

const OTHER: ClientRef = ClientRef { entity: 6, attempt_token: Some(42) };

fn move_forward(handle: &mut RuntimeHandle) -> mineintent_backend::handle::CommandCompletion {
    handle
        .move_input(vec![MotorDirection::Forward], 400, Some(true), Some(true), None, AT)
        .expect("move")
}

/// Takes the next command and starts it.
fn start_next(handle: &mut RuntimeHandle) -> CommandStep {
    let queued = handle.shared.next_command_for_client(CLIENT).expect("queued command");
    handle.shared.handle_command(CLIENT, queued, AT)
}

fn started_move(handle: &mut RuntimeHandle) -> MovePlan {
    match start_next(handle) {
        CommandStep::Move(plan) => plan,
        step => panic!("expected a movement, got {step:?}"),
    }
}

fn result(handle: &RuntimeHandle, completion: u64) -> Option<Result<(), BackendError>> {
    handle.shared.completion_result(completion)
}

#[test]
fn commands_keep_their_order() {
    let (mut handle, _events) = ready();
    handle.send_chat("one".to_owned(), AT).expect("chat");
    handle.send_chat("two".to_owned(), AT).expect("chat");
    match start_next(&mut handle) {
        CommandStep::Chat { message, completion: None } => assert_eq!(message, "one"),
        step => panic!("expected chat, got {step:?}"),
    }
    match start_next(&mut handle) {
        CommandStep::Chat { message, .. } => assert_eq!(message, "two"),
        step => panic!("expected chat, got {step:?}"),
    }
    assert!(handle.shared.next_command_for_client(CLIENT).is_none());
}

#[test]
fn commands_go_to_the_owner_alone() {
    let (mut handle, _events) = ready();
    handle.send_chat("one".to_owned(), AT).expect("chat");
    assert!(handle.shared.next_command_for_client(OTHER).is_none());
    assert!(handle.shared.next_command_for_client(CLIENT).is_some());
}

#[test]
fn commands_are_numbered() {
    let (mut handle, _events) = ready();
    let first = handle.look_relative(single(1.0), single(2.0), AT).expect("look");
    let second = handle.release_all(AT).expect("release");
    assert_eq!(first.command_id(), "command-1");
    assert_eq!(second.command_id(), "command-2");
    assert_eq!(second.command_id, CommandId::Sequence(2));
}

#[test]
fn refused_commands_do_not_linger() {
    let (mut handle, _events) = ready();
    assert_eq!(
        handle.look_relative(single(100.0), single(0.0), AT).expect_err("yaw"),
        CommandError::YawOutOfRange
    );
    assert_eq!(
        handle.send_chat("a\nb".to_owned(), AT).expect_err("chat"),
        CommandError::ChatNotSingleLine
    );
    assert_eq!(
        handle.respawn_for_epoch(9, AT).expect_err("epoch"),
        CommandError::StaleEpoch { bound: 9, current: 1 }
    );
    assert_eq!(
        handle
            .send_command(BackendCommandEnvelope {
                protocol: CommandProtocol::Other("v9".to_owned()),
                id: CommandId::Named("c".to_owned()),
                issued_at: AT,
                command: BackendCommand::Respawn,
            })
            .expect_err("protocol"),
        CommandError::UnsupportedProtocol("v9".to_owned())
    );
    assert!(handle.shared.commands.is_empty());
    assert!(handle.shared.completions.is_empty());
    handle.stop("end".to_owned(), AT);
    assert_eq!(handle.respawn(AT).expect_err("stopping"), CommandError::Stopping);
}

#[test]
fn a_look_is_handed_on_with_its_degrees() {
    let (mut handle, _events) = ready();
    let look = handle
        .look_relative_for_epoch(1, single(10.0), single(-5.0), AT)
        .expect("look");
    assert_eq!(
        start_next(&mut handle),
        CommandStep::Look {
            yaw_degrees: single(10.0),
            pitch_degrees: single(-5.0),
            completion: Some(look.completion),
        }
    );
    assert_eq!(result(&handle, look.completion), None);
    handle.shared.finish_command(Some(look.completion), Ok(()));
    assert_eq!(result(&handle, look.completion), Some(Ok(())));
    handle.shared.finish_command(
        Some(look.completion),
        Err(BackendError::SubscriptionClosed),
    );
    assert_eq!(result(&handle, look.completion), Some(Ok(())));
    handle.shared.forget_completion(look.completion);
    assert_eq!(result(&handle, look.completion), None);
}

#[test]
fn a_respawn_settles_as_it_starts() {
    let (mut handle, _events) = ready();
    let respawn = handle.respawn_for_epoch(1, AT).expect("respawn");
    assert_eq!(start_next(&mut handle), CommandStep::Respawn { connection_epoch: 1 });
    assert_eq!(result(&handle, respawn.completion), Some(Ok(())));
    assert!(handle
        .shared
        .take_effects()
        .iter()
        .any(|effect| matches!(effect, Effect::Settled(id) if *id == respawn.completion)));
}

#[test]
fn a_movement_runs_and_is_released() {
    let (mut handle, _events) = ready();
    let command = move_forward(&mut handle);
    let plan = started_move(&mut handle);
    assert_eq!(plan.walk, WalkDirection::Forward);
    assert_eq!(plan.sprint, Some(SprintDirection::Forward));
    assert!(plan.jump);
    assert!(!plan.crouch);
    assert_eq!(plan.duration_ms, 400);
    assert!(handle.shared.movement.active);
    assert!(handle.shared.owns_movement(&plan.id, plan.generation));
    let signal = match handle.shared.finish_move_start(&plan, true, AT) {
        MoveFollowUp::ReleaseLater { cancel_signal, duration_ms: 400 } => cancel_signal,
        next => panic!("expected a later release, got {next:?}"),
    };
    assert_eq!(plan.cancel_signal, Some(signal));

    assert_eq!(
        handle.shared.begin_release(CLIENT, 1, &plan.id, plan.generation),
        ReleaseStep::Release
    );
    let planned = handle.shared.elapsed_result(&plan.id, plan.completion);
    assert_eq!(planned, Ok(()));
    handle.shared.release_active_movement_and_finish(
        &plan.id,
        plan.generation,
        plan.completion,
        result_of_release(true, Actuation::MoveRelease, planned),
        AT,
    );
    assert_eq!(result(&handle, command.completion), Some(Ok(())));
    assert!(!handle.shared.movement.active);
    assert_eq!(
        handle.shared.begin_release(CLIENT, 1, &plan.id, plan.generation),
        ReleaseStep::NotOwned
    );
}

#[test]
fn a_movement_that_did_not_start_fails() {
    let (mut handle, _events) = ready();
    let command = move_forward(&mut handle);
    let plan = started_move(&mut handle);
    assert_eq!(handle.shared.finish_move_start(&plan, false, AT), MoveFollowUp::Done);
    assert!(matches!(
        result(&handle, command.completion),
        Some(Err(BackendError::BackendFailure { .. }))
    ));
    assert!(!handle.shared.movement.active);
}

#[test]
fn a_later_movement_supersedes_the_first() {
    let (mut handle, _events) = ready();
    let first = move_forward(&mut handle);
    let plan = started_move(&mut handle);
    handle.shared.finish_move_start(&plan, true, AT);
    move_forward(&mut handle);
    let next = started_move(&mut handle);
    assert!(!handle.shared.owns_movement(&plan.id, plan.generation));
    assert!(handle.shared.owns_movement(&next.id, next.generation));
    assert_eq!(
        result(&handle, first.completion),
        Some(Err(BackendError::Cancelled { operation: Operation::MovementSuperseded }))
    );
}

#[test]
fn releasing_everything_ends_the_movement() {
    let (mut handle, _events) = ready();
    let movement = move_forward(&mut handle);
    let plan = started_move(&mut handle);
    handle.shared.finish_move_start(&plan, true, AT);
    let release = handle.release_all_for_epoch(1, AT).expect("release");
    let release_plan = match start_next(&mut handle) {
        CommandStep::Release(plan) => plan,
        step => panic!("expected a release, got {step:?}"),
    };
    assert_eq!(release_plan.previous_completion, Some(movement.completion));
    let previous_id = release_plan.previous_id.as_ref().expect("the movement");
    assert_eq!(previous_id, &plan.id);
    handle.shared.release_active_movement_and_finish(
        previous_id,
        release_plan.previous_generation,
        release_plan.previous_completion,
        Err(BackendError::Cancelled { operation: Operation::MovementReleased }),
        AT,
    );
    assert!(matches!(
        result(&handle, movement.completion),
        Some(Err(BackendError::Cancelled { .. }))
    ));
    assert!(!handle.shared.movement.active);
    assert_eq!(result(&handle, release.completion), None);
    handle.shared.finish_command(release_plan.completion, Ok(()));
    assert_eq!(result(&handle, release.completion), Some(Ok(())));
}

#[test]
fn releasing_without_a_movement_settles_at_once() {
    let (mut handle, _events) = ready();
    handle.release_all(AT).expect("release");
    let plan = match start_next(&mut handle) {
        CommandStep::Release(plan) => plan,
        step => panic!("expected a release, got {step:?}"),
    };
    assert_eq!(plan.previous_id, None);
    assert_eq!(plan.previous_completion, None);
    handle.shared.finish_idle_release(&plan, true);
    assert!(!handle.shared.movement.active);
}

#[test]
fn a_cancelled_command_does_nothing() {
    let (mut handle, _events) = ready();
    let look = handle.look_relative(single(1.0), single(1.0), AT).expect("look");
    look.cancel(&mut handle.shared);
    assert_eq!(
        result(&handle, look.completion),
        Some(Err(BackendError::Cancelled { operation: Operation::Command(look.command_id) }))
    );
    assert_eq!(start_next(&mut handle), CommandStep::Done);
}

#[test]
fn a_running_movement_is_cancelled_by_its_handle() {
    let (mut handle, _events) = ready();
    let command = move_forward(&mut handle);
    let plan = started_move(&mut handle);
    let signal = match handle.shared.finish_move_start(&plan, true, AT) {
        MoveFollowUp::ReleaseLater { cancel_signal, .. } => cancel_signal,
        next => panic!("expected a later release, got {next:?}"),
    };
    handle.shared.take_effects();
    command.cancellation_handle().cancel(&mut handle.shared);
    assert!(handle
        .shared
        .take_effects()
        .iter()
        .any(|effect| matches!(effect, Effect::RaiseSignal(id) if *id == signal)));
}

#[test]
fn a_command_of_an_earlier_attempt_only_settles() {
    let (mut handle, _events) = ready();
    let look = handle.look_relative(single(1.0), single(1.0), AT).expect("look");
    let queued = handle.shared.next_command_for_client(CLIENT).expect("queued");
    assert!(handle.shared.begin_connection_attempt(AT));
    let movement_before = handle.shared.counters.movement_generation;
    assert_eq!(handle.shared.handle_command(CLIENT, queued, AT), CommandStep::Done);
    assert!(matches!(result(&handle, look.completion), Some(Err(_))));
    assert_eq!(handle.shared.counters.movement_generation, movement_before);
}

#[test]
fn given_up_commands_are_settled() {
    let (mut handle, _events) = ready();
    let look = handle.look_relative(single(1.0), single(1.0), AT).expect("look");
    handle.shared.mark_disconnected(None, AT);
    assert!(handle.shared.commands.is_empty());
    assert!(matches!(result(&handle, look.completion), Some(Err(_))));
}

#[test]
fn death_stops_the_movement() {
    let (mut handle, _events) = ready();
    let command = move_forward(&mut handle);
    let plan = started_move(&mut handle);
    handle.shared.finish_move_start(&plan, true, AT);
    assert_eq!(handle.shared.admit_death_and_release(true, AT), Some(true));
    assert_eq!(
        result(&handle, command.completion),
        Some(Err(BackendError::Cancelled { operation: Operation::MovementStoppedByDeath }))
    );
    assert!(!handle.shared.owns_movement(&plan.id, plan.generation));
}

#[test]
fn a_stop_waits_for_the_movement_and_the_watchdog_ends_it() {
    let (mut handle, events) = ready();
    let command = move_forward(&mut handle);
    let plan = started_move(&mut handle);
    handle.shared.finish_move_start(&plan, true, AT);
    handle.shared.take_effects();
    handle.stop("done".to_owned(), AT);
    assert!(matches!(handle.state(), BackendState::Stopping { .. }));
    let token = handle
        .shared
        .take_effects()
        .into_iter()
        .find_map(|effect| match effect {
            Effect::StartStopWatchdog { token, after_ms: 5_000 } => Some(token),
            _ => None,
        })
        .expect("a watchdog");
    handle.shared.fire_stop_watchdog(token, AT);
    assert!(matches!(handle.state(), BackendState::Stopped { .. }));
    assert!(matches!(result(&handle, command.completion), Some(Err(_))));
    let told = drain(events, &mut handle);
    assert!(told.last().expect("an end").is_terminal());
    handle.shared.fire_stop_watchdog(token, AT);
    assert!(drain(events, &mut handle).is_empty());
    assert_eq!(
        handle.state(),
        BackendState::Stopped { reason: Some(StopReason::Given("done".to_owned())) }
    );
}

#[test]
fn a_stop_ends_once_its_movement_is_released() {
    let (mut handle, events) = ready();
    move_forward(&mut handle);
    let plan = started_move(&mut handle);
    handle.shared.finish_move_start(&plan, true, AT);
    handle.stop("done".to_owned(), AT);
    assert!(matches!(handle.state(), BackendState::Stopping { .. }));
    handle.shared.release_active_movement_and_finish(
        &plan.id,
        plan.generation,
        plan.completion,
        Ok(()),
        AT,
    );
    assert!(matches!(handle.state(), BackendState::Stopped { .. }));
    assert_eq!(drain(events, &mut handle).iter().filter(|event| event.is_terminal()).count(), 1);
}

#[test]
fn a_movement_of_another_client_is_not_registered() {
    let (mut handle, _events) = ready();
    let id = CommandId::Named("m".to_owned());
    assert_eq!(
        handle.shared.register_active_movement_for_client(OTHER, 1, &id, 1, 100, None, AT),
        ActiveMovementRegistration::Cancelled
    );
    assert!(!handle.shared.movement.active);
}

#[test]
fn a_release_that_found_no_player_fails() {
    assert_eq!(result_of_release(true, Actuation::MoveRelease, Ok(())), Ok(()));
    assert!(matches!(
        result_of_release(false, Actuation::MoveRelease, Ok(())),
        Err(BackendError::BackendFailure { .. })
    ));
}

#[test]
fn a_movement_is_bound_to_its_client_attempt_and_generation() {
    let (mut handle, _events) = ready();
    let epoch = handle.connection_epoch();
    assert!(handle
        .move_input_for_epoch(
            epoch,
            vec![MotorDirection::Forward],
            100,
            None,
            None,
            None,
            AT,
        )
        .is_ok());
    let plan = started_move(&mut handle);
    let error = |client: ClientRef, epoch: u64, generation: u64| {
        handle.shared.client_movement_error(
            client,
            epoch,
            &plan.id,
            generation,
            plan.completion,
        )
    };
    let cancelled = BackendError::Cancelled { operation: Operation::Command(plan.id.clone()) };
    assert_eq!(error(CLIENT, epoch, plan.generation), None);
    assert_eq!(error(CLIENT, epoch, plan.generation + 1), Some(cancelled));
    assert!(error(CLIENT, epoch + 1, plan.generation).is_some());
    let other = ClientRef { entity: 6, attempt_token: Some(42) };
    assert!(error(other, epoch, plan.generation).is_some());
}

#[test]
fn an_input_for_another_epoch_is_refused() {
    let (mut handle, _events) = ready();
    let epoch = handle.connection_epoch();
    let refused = handle.move_input_for_epoch(
        epoch + 1,
        vec![MotorDirection::Forward],
        100,
        None,
        None,
        None,
        AT,
    );
    assert!(refused.is_err());
}

#[test]
fn a_stop_leaves_the_keys_to_the_movement() {
    let (mut handle, _events) = ready();
    let command = move_forward(&mut handle);
    let plan = started_move(&mut handle);
    handle.shared.finish_move_start(&plan, true, AT);
    handle.stop("done".to_owned(), AT);
    assert_eq!(
        handle.shared.begin_release(CLIENT, 1, &plan.id, plan.generation),
        ReleaseStep::Release
    );
    assert_eq!(
        handle.shared.begin_release(CLIENT, 2, &plan.id, plan.generation),
        ReleaseStep::Refused(BackendError::StaleEpoch { bound_epoch: 2, current_epoch: 1 })
    );
    let failed = result_of_release(false, Actuation::CancelMove, Ok(()));
    handle.shared.release_active_movement_and_finish(
        &plan.id,
        plan.generation,
        plan.completion,
        failed.clone(),
        AT,
    );
    assert_eq!(result(&handle, command.completion), Some(failed));
    assert!(matches!(handle.state(), BackendState::Stopped { .. }));
}

#[test]
fn another_client_does_not_release_the_movement() {
    let (mut handle, _events) = ready();
    move_forward(&mut handle);
    let plan = started_move(&mut handle);
    handle.shared.finish_move_start(&plan, true, AT);
    assert!(matches!(
        handle.shared.begin_release(OTHER, 1, &plan.id, plan.generation),
        ReleaseStep::Refused(BackendError::Cancelled { .. })
    ));
}
