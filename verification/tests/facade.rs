use std::sync::Arc;

use mineintent_backend::bridge::{BridgeAdmission, BridgeNext};
use mineintent_backend::config::{BackendTimeouts, ReconnectPolicy};
use mineintent_backend::contract::{
    AttemptId, BackendError, BackendEventEnvelope, BackendEventKind, BackendEventPayload,
    BackendFailure, BackendFailureCode, BackendLifecyclePayload, BackendState, ChatEvent,
    ChatPosition, Complaint, FactSource, FailureMessage, Operation, PublicOperation, Readiness,
    RequestField,
};
use mineintent_backend::command::MotorDirection;
use mineintent_backend::entity_events::{EntityIdentity, NormalizedEntityEvent};
use mineintent_backend::facade::{
    run_config, FacadeMotor, FacadeObservationSource, IdentityConfig, MinecraftBackendConfig,
    MinecraftBackendFacade, Relay, ServerConfig, StopAdmission, UNLIMITED_DURATION_MS,
};
use mineintent_backend::handle::RuntimeEventReceiver;
use mineintent_backend::lanes::ORDINARY_CAPACITY;
use mineintent_backend::light::{LightSectionGeometry, LightUpdateData};
use mineintent_backend::number::{Double, Single, Vec3Value};
use mineintent_backend::observation::WorldRead;
use mineintent_backend::session::{ControlWake, RuntimeSession, StartWait, StopWait};
use mineintent_backend::snapshot::{
    BlockPosition, BlockReadResult, ExperienceSnapshot, InventorySlotSnapshot, InventorySnapshot,
    MinecraftSnapshotV1, SelfSnapshot, WorldSnapshot,
};
use mineintent_backend::state::SharedRuntime;
use mineintent_backend::time::UtcInstant;

const AT: UtcInstant = UtcInstant { seconds: 1_785_715_200, nanos: 0 };
const PLAYER: u64 = 31;
const SESSION: &str = "scripted-session";

fn double(value: f64) -> Double {
    Double { bits: value.to_bits() }
}

fn single(value: f32) -> Single {
    Single { bits: value.to_bits() }
}

fn vec3(x: f64, y: f64, z: f64) -> Vec3Value {
    Vec3Value { x: double(x), y: double(y), z: double(z) }
}

fn test_timeouts() -> BackendTimeouts {
    BackendTimeouts { connect_ms: 500, login_ms: 500, spawn_ms: 500, stop_ms: 500 }
}

fn test_reconnect() -> ReconnectPolicy {
    ReconnectPolicy {
        enabled: false,
        initial_delay_ms: 1,
        multiplier: double(1.0),
        max_delay_ms: 1,
        jitter_ratio: double(0.0),
        stable_reset_ms: 1,
    }
}

fn test_config() -> MinecraftBackendConfig {
    MinecraftBackendConfig {
        world_id: "facade-test-world".to_owned(),
        server: ServerConfig { host: "127.0.0.1".to_owned(), port: 25565 },
        identity: IdentityConfig { username: "FacadeTestBot".to_owned() },
        timeouts: test_timeouts(),
        reconnect: test_reconnect(),
    }
}

fn test_snapshot(epoch: u64) -> MinecraftSnapshotV1 {
    MinecraftSnapshotV1 {
        snapshot_revision: 7,
        lifecycle_revision: 3,
        captured_at: AT,
        process_session_id: SESSION.to_owned(),
        connection_epoch: epoch,
        connection_attempt_id: AttemptId { epoch },
        world: WorldSnapshot {
            world_id: "facade-test-world".to_owned(),
            dimension: "minecraft:overworld".to_owned(),
            minecraft_version: "26.1.2".to_owned(),
            protocol_version: 775,
            game_mode: "survival".to_owned(),
            min_y: -64,
            height: 384,
        },
        self_snapshot: SelfSnapshot {
            entity_key: "self:FacadeTestBot".to_owned(),
            username: "FacadeTestBot".to_owned(),
            position: vec3(0.0, 64.0, 0.0),
            velocity: vec3(0.0, 0.0, 0.0),
            yaw: single(0.0),
            pitch: single(0.0),
            on_ground: true,
            alive: true,
            health: single(20.0),
            food: 20,
            food_saturation: single(5.0),
            experience: ExperienceSnapshot { level: 0, progress: single(0.0), total: 0 },
        },
        inventory: InventorySnapshot {
            selected_hotbar_slot: 0,
            slots: vec![InventorySlotSnapshot {
                slot: 0,
                item_name: "minecraft:air".to_owned(),
                count: 0,
            }],
        },
        tracked_players: Vec::new(),
    }
}

fn session(facade: &mut MinecraftBackendFacade) -> &mut RuntimeSession {
    facade.session.as_mut().expect("owned session")
}

fn runtime(facade: &mut MinecraftBackendFacade) -> &mut SharedRuntime {
    &mut session(facade).handle.shared
}

/// A started facade with its worker running.
fn started_facade() -> (MinecraftBackendFacade, RuntimeEventReceiver) {
    let mut facade = MinecraftBackendFacade::new(Ok(test_config())).expect("facade");
    facade.admit_start(SESSION.to_owned(), 1).expect("start");
    session(&mut facade).mark_launched();
    let events = session(&mut facade).handle.subscribe();
    (facade, events)
}

fn relay_all(facade: &mut MinecraftBackendFacade, events: RuntimeEventReceiver) -> bool {
    let mut stopped_seen = false;
    loop {
        match facade.relay_event(events, Ok(())) {
            Relay::Nothing => return stopped_seen,
            Relay::Relayed { stopped, bridged } => {
                stopped_seen = stopped_seen || stopped;
                if !facade.closed {
                    assert_eq!(bridged.expect("bridged").1, BridgeAdmission::Accepted);
                }
            }
        }
    }
}

fn become_ready(facade: &mut MinecraftBackendFacade) {
    let shared = runtime(facade);
    assert!(shared.begin_connection_attempt(AT));
    assert_eq!(
        shared.consume_attempt_for_transport_init_and_bind_with_token(PLAYER, None, AT),
        Some(1)
    );
    shared.emit_logged_in("26.1.2".to_owned(), "minecraft:overworld".to_owned(), AT);
    shared.observation.snapshot = Some(Arc::new(test_snapshot(1)));
    shared.observation.source = Some(FactSource::ServerObserved);
    shared.emit_ready(7, AT);
}

fn ready_facade() -> (MinecraftBackendFacade, RuntimeEventReceiver) {
    let (mut facade, events) = started_facade();
    become_ready(&mut facade);
    relay_all(&mut facade, events);
    (facade, events)
}

fn stop(facade: &mut MinecraftBackendFacade, reason: &str) -> StopAdmission {
    facade.admit_stop(reason.to_owned(), SESSION.to_owned(), 1, AT)
}

fn lifecycle(payload: BackendLifecyclePayload) -> BackendEventPayload {
    BackendEventPayload::Lifecycle(payload)
}

#[test]
fn facade_production_config_keeps_runtime_events_in_process() {
    let runtime = run_config(&test_config());
    assert!(!runtime.auto_stop);
    assert!(!runtime.emit_stdout);
    assert_eq!(runtime.timeouts, test_timeouts());
    assert_eq!(runtime.reconnect, test_reconnect());
}

#[test]
fn the_run_takes_its_server_and_identity_from_the_facade() {
    let runtime = run_config(&test_config());
    assert_eq!(runtime.host, "127.0.0.1");
    assert_eq!(runtime.port, 25565);
    assert_eq!(runtime.username, "FacadeTestBot");
    assert_eq!(runtime.world_id, "facade-test-world");
    assert_eq!(runtime.duration_ms, UNLIMITED_DURATION_MS);
    assert_eq!(runtime.initial_chat, None);
}

#[test]
fn facade_capture_frame_facts_returns_runtime_atomic_values() {
    let (mut facade, _events) = ready_facade();
    let snapshot = facade.snapshot(Ok(())).expect("snapshot should be ready");

    let shared = runtime(&mut facade);
    shared.observation.armor = Some(17);
    shared.observation.armor_epoch = Some(1);
    let generation = shared.producer.scope_generation;
    shared.observation.snapshot_scope_generation = generation;
    shared.observation.light_cache.reset_scope(
        1,
        generation,
        Some("minecraft:overworld".to_owned()),
        Some(false),
    );
    let geometry = LightSectionGeometry::from_world(-64, 384).expect("geometry");
    let section = geometry.index_for_section_y(4).expect("section");
    let mut mask = vec![false; geometry.light_section_count];
    mask[section] = true;
    assert!(shared.observation.light_cache.apply_packet(
        1,
        generation,
        "minecraft:overworld".to_owned(),
        Some(false),
        geometry,
        0,
        0,
        &LightUpdateData {
            sky_mask: Vec::new(),
            empty_sky_mask: Vec::new(),
            sky_updates: Vec::new(),
            block_mask: mask,
            empty_block_mask: Vec::new(),
            block_updates: vec![vec![0xdd; 2048]],
        },
        true,
    ));

    let facts = facade.capture_frame_facts(Ok(())).expect("runtime frame facts should be ready");
    assert_eq!(facts.snapshot.connection_epoch, snapshot.connection_epoch);
    assert_eq!(facts.snapshot.world.dimension, snapshot.world.dimension);
    assert_eq!(facts.armor, Some(17));
    assert_eq!(facts.light, Some(13));
}

#[test]
fn facade_start_ready_and_initial_state_are_runtime_owned() {
    let mut facade = MinecraftBackendFacade::new(Ok(test_config())).expect("facade");
    assert_eq!(facade.state(), BackendState::Idle);
    facade.admit_start(SESSION.to_owned(), 1).expect("start");
    session(&mut facade).mark_launched();
    let events = session(&mut facade).handle.subscribe();
    assert_eq!(session(&mut facade).start_step(Ok(())), StartWait::Wait);
    become_ready(&mut facade);
    relay_all(&mut facade, events);
    let ready = match session(&mut facade).start_step(Ok(())) {
        StartWait::Done(Ok(ready)) => ready,
        other => panic!("ready should be returned, got {other:?}"),
    };
    assert_eq!(
        facade.state(),
        BackendState::Ready {
            epoch: ready.connection_epoch,
            attempt_id: ready.connection_attempt_id,
            ready_at: AT,
        }
    );
    assert_eq!(ready.process_session_id, SESSION);
    assert_eq!(facade.snapshot(Ok(())).expect("snapshot").snapshot_revision, 7);
}

#[test]
fn facade_terminal_failure_maps_without_new_error_kind() {
    let (mut facade, events) = started_facade();
    let failure = || BackendFailure {
        code: BackendFailureCode::AuthenticationFailed,
        message: FailureMessage::Text("scripted auth failure".to_owned()),
        retryable: false,
    };
    assert!(runtime(&mut facade).begin_connection_attempt(AT));
    assert!(runtime(&mut facade).emit_faulted(failure(), AT));
    relay_all(&mut facade, events);
    assert_eq!(
        session(&mut facade).start_step(Ok(())),
        StartWait::Done(Err(BackendError::BackendFailure { failure: failure() }))
    );
    assert!(matches!(facade.state(), BackendState::Faulted { .. }));
}

#[test]
fn facade_start_deadline_is_explicit_and_stoppable() {
    let (mut facade, events) = started_facade();
    let expired = || {
        Err(BackendError::DeadlineExceeded { operation: Operation::Public(PublicOperation::Start) })
    };
    assert_eq!(
        session(&mut facade).start_step(expired()),
        StartWait::GivenUp(BackendError::DeadlineExceeded {
            operation: Operation::Public(PublicOperation::Start)
        })
    );
    assert_eq!(
        stop(&mut facade, "deadline-start-cleanup"),
        StopAdmission::Running { session_id: 1 }
    );
    assert!(relay_all(&mut facade, events));
    assert!(matches!(facade.state(), BackendState::Stopped { .. }));
    session(&mut facade).mark_worker_done();
    assert_eq!(session(&mut facade).stop_step(Ok(())), StopWait::Join);
}

#[test]
fn facade_stop_is_idempotent_and_final_stopped_is_visible() {
    let (mut facade, events) = ready_facade();
    assert_eq!(stop(&mut facade, "first"), StopAdmission::Running { session_id: 1 });
    assert_eq!(stop(&mut facade, "second"), StopAdmission::Running { session_id: 1 });
    assert_eq!(session(&mut facade).stop_step(Ok(())), StopWait::Wait);
    assert!(relay_all(&mut facade, events));
    session(&mut facade).mark_worker_done();
    assert_eq!(session(&mut facade).stop_step(Ok(())), StopWait::Join);
    assert_eq!(session(&mut facade).stop_step(Ok(())), StopWait::Join);
    assert!(matches!(facade.state(), BackendState::Stopped { .. }));
    assert!(matches!(session(&mut facade).outcome.start_result(), Some(Ok(_))));
}

#[test]
fn facade_stopped_before_ready_closes_pending_start_without_fake_close() {
    let (mut facade, events) = started_facade();
    assert_eq!(session(&mut facade).start_step(Ok(())), StartWait::Wait);
    assert_eq!(
        stop(&mut facade, "stop-before-ready"),
        StopAdmission::Running { session_id: 1 }
    );
    assert!(relay_all(&mut facade, events));
    assert_eq!(
        session(&mut facade).start_step(Ok(())),
        StartWait::Done(Err(BackendError::NotReady { state: Readiness::Stopped }))
    );
    assert_eq!(Readiness::Stopped.text(), "stopped");
}

#[test]
fn facade_idle_stop_publishes_stopped_without_connection_or_worker() {
    let mut facade = MinecraftBackendFacade::new(Ok(test_config())).expect("facade");
    let events = match stop(&mut facade, "idle-stop") {
        StopAdmission::Idle { session_id: 1, events } => events,
        other => panic!("expected an idle stop, got {other:?}"),
    };
    assert!(relay_all(&mut facade, events));
    let session = session(&mut facade);
    assert_eq!(session.handle.connection_epoch(), 0);
    assert!(!session.worker.launched);
    assert!(session.worker.done);
    assert!(session.worker.joined);
    assert!(session.stop_resources_released());
    assert!(matches!(facade.state(), BackendState::Stopped { .. }));
}

#[test]
fn facade_concurrent_start_is_rejected_without_old_ready_replay() {
    let (mut facade, _events) = started_facade();
    assert_eq!(
        facade.admit_start(SESSION.to_owned(), 2),
        Err(BackendError::InvalidCommand {
            field: RequestField::Lifecycle,
            message: Complaint::StartAlreadyOwned,
        })
    );
    assert_eq!(RequestField::Lifecycle.text(), "lifecycle");
    assert_eq!(
        session(&mut facade).start_step(Err(BackendError::Cancelled {
            operation: Operation::Public(PublicOperation::Start)
        })),
        StartWait::GivenUp(BackendError::Cancelled {
            operation: Operation::Public(PublicOperation::Start)
        })
    );
    assert_eq!(
        stop(&mut facade, "concurrent-start-test"),
        StopAdmission::Running { session_id: 1 }
    );
}

#[test]
fn facade_snapshot_and_source_reject_not_ready_and_stale_use() {
    let mut facade = MinecraftBackendFacade::new(Ok(test_config())).expect("facade");
    assert_eq!(facade.snapshot(Ok(())), Err(BackendError::NotReady { state: Readiness::Idle }));
    facade.admit_start(SESSION.to_owned(), 1).expect("start");
    session(&mut facade).mark_launched();
    let events = session(&mut facade).handle.subscribe();
    assert!(matches!(facade.snapshot(Ok(())), Err(BackendError::NotReady { .. })));
    let shared = runtime(&mut facade);
    shared.observation.snapshot = Some(Arc::new(test_snapshot(0)));
    shared.observation.source = Some(FactSource::ServerObserved);
    shared.emit_ready(7, AT);
    relay_all(&mut facade, events);
    let source = facade.observation_source().expect("ready source should be available");
    assert_eq!(source.epoch(), 0);
    assert!(source.self_pose(&facade).is_ok());
    stop(&mut facade, "source-stale");
    relay_all(&mut facade, events);
    assert_eq!(
        source.self_pose(&facade),
        Err(BackendError::NotReady { state: Readiness::Stopped })
    );
}

#[test]
fn facade_real_runtime_worker_capacity_plus_one_stop_is_bounded() {
    let (mut facade, events) = started_facade();
    let subscription = facade.subscribe().expect("production subscription");
    let entity = || {
        BackendEventPayload::Entity(NormalizedEntityEvent::Animation {
            entity: EntityIdentity::new(1, 7),
            animation: "synthetic".to_owned(),
        })
    };
    let mut seen: Vec<Arc<BackendEventEnvelope>> = Vec::new();

    // The first event is being delivered while the rest come in.
    runtime(&mut facade).emit(FactSource::ServerObserved, entity(), AT);
    relay_all(&mut facade, events);
    let first = match facade.bridge.next() {
        BridgeNext::Item(item) => item,
        other => panic!("expected the first event, got {other:?}"),
    };
    assert_eq!(facade.handle_event(first.session_id), vec![subscription]);
    assert!(facade.begin_callback(subscription, 1));
    seen.push(first.event);

    for _ in 0..ORDINARY_CAPACITY + 1 {
        runtime(&mut facade).emit(FactSource::ServerObserved, entity(), AT);
        relay_all(&mut facade, events);
    }
    runtime(&mut facade).emit(
        FactSource::Commanded,
        lifecycle(BackendLifecyclePayload::ConnectionRequested { attempt: 900 }),
        AT,
    );
    runtime(&mut facade).emit(
        FactSource::ServerObserved,
        BackendEventPayload::Chat(ChatEvent {
            sender_username: Some("synthetic".to_owned()),
            plain_text: "lossless chat".to_owned(),
            position: Some(ChatPosition::Chat),
            verified: Some(true),
        }),
        AT,
    );
    relay_all(&mut facade, events);

    // The callback stops the backend.
    assert_eq!(
        stop(&mut facade, "production-callback-stop"),
        StopAdmission::Running { session_id: 1 }
    );
    assert!(relay_all(&mut facade, events));
    session(&mut facade).mark_worker_done();
    assert_eq!(session(&mut facade).stop_step(Ok(())), StopWait::Join);
    session(&mut facade).mark_joined();
    facade.finish_callback(subscription);

    while let BridgeNext::Item(item) = facade.bridge.next() {
        assert_eq!(facade.handle_event(item.session_id), vec![subscription]);
        assert!(facade.begin_callback(subscription, 1));
        seen.push(item.event);
        facade.finish_callback(subscription);
    }
    assert!(session(&mut facade).worker.done);
    assert!(session(&mut facade).worker.joined);
    let overflow_count =
        seen.iter().filter(|event| event.kind() == BackendEventKind::Overflow).count();
    let stopped_count = seen
        .iter()
        .filter(|event| {
            matches!(
                event.payload,
                BackendEventPayload::Lifecycle(BackendLifecyclePayload::Stopped { .. })
            )
        })
        .count();
    assert_eq!(overflow_count, 1, "one continuous loss segment expected");
    assert_eq!(stopped_count, 1, "terminal event must be unique");
    assert!(seen.iter().any(|event| {
        matches!(
            event.payload,
            BackendEventPayload::Lifecycle(BackendLifecyclePayload::ConnectionRequested {
                attempt: 900
            })
        )
    }));
    assert!(seen.iter().any(|event| {
        matches!(
            &event.payload,
            BackendEventPayload::Chat(chat) if chat.plain_text == "lossless chat"
        )
    }));
}

#[test]
fn facade_unsubscribe_linearizes_before_waiting_for_active_callback() {
    let (mut facade, events) = started_facade();
    let subscription = facade.subscribe().expect("blocking subscription");
    let mut count = 0;
    runtime(&mut facade).emit(
        FactSource::Commanded,
        lifecycle(BackendLifecyclePayload::ConnectionRequested { attempt: 0 }),
        AT,
    );
    relay_all(&mut facade, events);
    assert!(matches!(facade.bridge.next(), BridgeNext::Item(_)));
    assert_eq!(facade.handle_event(1), vec![subscription]);
    assert!(facade.begin_callback(subscription, 4));

    facade.remove_subscription(subscription);
    assert!(facade.subscription_must_wait(subscription, 5));
    assert!(!facade.subscription_must_wait(subscription, 4));
    count += 1;
    facade.finish_callback(subscription);
    assert!(!facade.subscription_must_wait(subscription, 5));
    assert_eq!(count, 1);

    runtime(&mut facade).emit(
        FactSource::Commanded,
        lifecycle(BackendLifecyclePayload::TransportConnected),
        AT,
    );
    relay_all(&mut facade, events);
    assert!(matches!(facade.bridge.next(), BridgeNext::Item(_)));
    assert_eq!(facade.handle_event(1), Vec::<u64>::new());
    assert!(!facade.begin_callback(subscription, 4));
    facade.forget_subscription(subscription);
    assert!(facade.listeners.is_empty());
}

#[test]
fn facade_motor_completion_cancellation_and_release_are_generation_safe() {
    let (mut facade, _events) = ready_facade();
    let motor = facade.motor().expect("motor");
    let look = facade
        .look_relative(motor, Ok(()), Ok(()), single(10.0), single(-5.0), AT)
        .expect("look");
    runtime(&mut facade).finish_command(Some(look.completion), Ok(()));
    assert_eq!(runtime(&mut facade).completion_result(look.completion), Some(Ok(())));

    let cancelled = facade
        .move_input(motor, Ok(()), Ok(()), vec![MotorDirection::Forward], 100, None, AT)
        .expect("move");
    assert!(!runtime(&mut facade).commands.is_empty());
    assert_eq!(
        session(&mut facade).interrupt_command(
            &cancelled,
            &ControlWake::Cancelled,
            PublicOperation::MoveInput
        ),
        Some(BackendError::Cancelled { operation: Operation::Public(PublicOperation::MoveInput) })
    );
    assert_eq!(PublicOperation::MoveInput.text(), "move_input");

    let next = facade
        .move_input(motor, Ok(()), Ok(()), vec![MotorDirection::Right], 100, None, AT)
        .expect("new move");
    assert_ne!(next.completion, cancelled.completion);
    runtime(&mut facade).finish_command(Some(next.completion), Ok(()));
    assert_eq!(runtime(&mut facade).completion_result(next.completion), Some(Ok(())));

    let release = facade.release_all(motor, AT).expect("release");
    runtime(&mut facade).finish_command(Some(release.completion), Ok(()));
    assert_eq!(runtime(&mut facade).completion_result(release.completion), Some(Ok(())));
}

#[test]
fn a_motor_of_an_earlier_attempt_is_refused() {
    let (mut facade, _events) = ready_facade();
    let old = FacadeMotor { session_id: 1, bound_epoch: 0 };
    assert_eq!(
        facade.release_all(old, AT),
        Err(BackendError::StaleEpoch { bound_epoch: 0, current_epoch: 1 })
    );
    let other = FacadeMotor { session_id: 2, bound_epoch: 1 };
    assert_eq!(
        facade.respawn(other, Ok(()), AT),
        Err(BackendError::StaleEpoch { bound_epoch: 1, current_epoch: 1 })
    );
    let idle = MinecraftBackendFacade::new(Ok(test_config())).expect("facade");
    let source = FacadeObservationSource { session_id: 1, bound_epoch: 3 };
    assert_eq!(
        source.self_pose(&idle),
        Err(BackendError::StaleEpoch { bound_epoch: 3, current_epoch: 0 })
    );
}

#[test]
fn the_dead_are_shown_and_do_not_act() {
    let (mut facade, _events) = ready_facade();
    assert_eq!(runtime(&mut facade).admit_death_and_release(true, AT), Some(true));
    assert!(matches!(facade.state(), BackendState::Dead { .. }));
    assert!(facade.snapshot(Ok(())).is_ok());
    assert!(facade.capture_frame_facts(Ok(())).is_ok());
    let source = facade.observation_source().expect("source");
    assert_eq!(source.self_pose(&facade), Ok(test_snapshot(1).pose()));
    assert_eq!(source.list_tracked_entities(&facade), Ok(Vec::new()));
    let nothing = WorldRead { min_y: -64, height: 384, stored: None };
    assert_eq!(
        source.read_block(&facade, BlockPosition { x: 0, y: 0, z: 0 }, nothing),
        Ok(BlockReadResult::Unloaded)
    );
    assert!(source.subscribe(&mut facade).is_ok());
    let motor = FacadeMotor { session_id: source.session_id, bound_epoch: source.bound_epoch };
    assert_eq!(
        facade.respawn(motor, Ok(()), AT),
        Err(BackendError::NotReady { state: Readiness::Dead })
    );
    assert_eq!(facade.motor(), Err(BackendError::NotReady { state: Readiness::Dead }));
    assert_eq!(
        facade.send_chat("hello".to_owned(), AT),
        Err(BackendError::NotReady { state: Readiness::Dead })
    );
}

#[test]
fn chat_with_a_line_break_is_refused_before_it_is_queued() {
    let (mut facade, _events) = ready_facade();
    assert_eq!(
        facade.send_chat("two\nlines".to_owned(), AT),
        Err(BackendError::InvalidCommand {
            field: RequestField::Message,
            message: Complaint::NotSingleLine,
        })
    );
    assert!(runtime(&mut facade).commands.is_empty());
    assert_eq!(facade.send_chat("one line".to_owned(), AT), Ok(()));
    assert_eq!(runtime(&mut facade).commands.len(), 1);
}

#[test]
fn degrees_that_are_no_numbers_are_refused() {
    let (mut facade, _events) = ready_facade();
    let motor = facade.motor().expect("motor");
    assert_eq!(
        facade.look_relative(motor, Ok(()), Ok(()), single(f32::INFINITY), single(0.0), AT),
        Err(BackendError::InvalidCommand {
            field: RequestField::Degrees,
            message: Complaint::NotRepresentable,
        })
    );
}

#[test]
fn a_closed_facade_takes_no_listeners_and_stops_its_run() {
    let (mut facade, events) = ready_facade();
    facade.close(AT);
    assert_eq!(facade.subscribe(), Err(BackendError::SubscriptionClosed));
    assert!(relay_all(&mut facade, events));
    assert!(matches!(facade.state(), BackendState::Stopped { .. }));
}

#[test]
fn events_of_another_session_reach_no_listener() {
    let (mut facade, _events) = started_facade();
    facade.subscribe().expect("subscription");
    assert_eq!(facade.handle_event(2), Vec::<u64>::new());
    assert_eq!(facade.handle_event(1).len(), 1);
}

#[test]
fn a_start_without_its_worker_is_launched_by_the_stop() {
    let mut facade = MinecraftBackendFacade::new(Ok(test_config())).expect("facade");
    facade.admit_start(SESSION.to_owned(), 1).expect("start");
    assert_eq!(stop(&mut facade, "early"), StopAdmission::Launch { session_id: 1 });
    session(&mut facade).mark_launched();
    assert_eq!(stop(&mut facade, "early"), StopAdmission::Running { session_id: 1 });
}

#[test]
fn a_refused_configuration_makes_no_backend() {
    let refused = BackendError::InvalidCommand {
        field: RequestField::Message,
        message: Complaint::Text("no host".to_owned()),
    };
    assert_eq!(MinecraftBackendFacade::new(Err(refused.clone())).err(), Some(refused));
}
