use std::sync::Arc;

use mineintent_backend::closing::{classify_close, CloseClass, CloseEvidence};
use mineintent_backend::config::{
    ConfigError, PhaseDeadlineToken, RunConfig, StopWatchdogToken, TransportPhase,
};
use mineintent_backend::contract::{
    AttemptId, BackendClose, BackendError, BackendEventEnvelope, BackendEventKind,
    BackendEventPayload, BackendFailure, BackendFailureCode, BackendLifecyclePayload, BackendState,
    ChatEvent, ChatPosition, CloseCode, EndReason, EventId, FactSource, FailureMessage,
    PlayerListEvent, StopReason,
};
use mineintent_backend::driver::{SpawnFollowUp, SwarmDisconnect};
use mineintent_backend::handle::{RuntimeEventReceiver, RuntimeHandle};
use mineintent_backend::number::{Double, Single, Vec3Value};
use mineintent_backend::snapshot::{
    ExperienceSnapshot, InventorySnapshot, MinecraftSnapshotV1, SelfSnapshot, WorldSnapshot,
};
use mineintent_backend::state::{ClientRef, Effect, SourceFence, SourceTokenBindings};
use mineintent_backend::time::UtcInstant;
use mineintent_backend::timers::attempt_shown;

const AT: UtcInstant = UtcInstant { seconds: 1_700_000_000, nanos: 0 };
const CLIENT: ClientRef = ClientRef { entity: 5, attempt_token: Some(41) };

fn single(value: f32) -> Single {
    Single { bits: value.to_bits() }
}

fn vec3(x: f64, y: f64, z: f64) -> Vec3Value {
    Vec3Value {
        x: Double { bits: x.to_bits() },
        y: Double { bits: y.to_bits() },
        z: Double { bits: z.to_bits() },
    }
}

fn snapshot(epoch: u64, revision: u64, dimension: &str) -> MinecraftSnapshotV1 {
    MinecraftSnapshotV1 {
        snapshot_revision: revision,
        lifecycle_revision: 1,
        captured_at: AT,
        process_session_id: "session".to_owned(),
        connection_epoch: epoch,
        connection_attempt_id: AttemptId { epoch },
        world: WorldSnapshot {
            world_id: "world".to_owned(),
            dimension: dimension.to_owned(),
            minecraft_version: "26.1.2".to_owned(),
            protocol_version: 775,
            game_mode: "survival".to_owned(),
            min_y: -64,
            height: 384,
        },
        self_snapshot: SelfSnapshot {
            entity_key: "self".to_owned(),
            username: "Bot".to_owned(),
            position: vec3(0.5, 64.0, 0.5),
            velocity: vec3(0.0, 0.0, 0.0),
            yaw: single(0.0),
            pitch: single(0.0),
            on_ground: true,
            alive: true,
            health: single(20.0),
            food: 20,
            food_saturation: single(5.0),
            experience: ExperienceSnapshot { level: 0, progress: single(0.0), total: 0 },
        },
        inventory: InventorySnapshot { selected_hotbar_slot: 0, slots: Vec::new() },
        tracked_players: Vec::new(),
    }
}

fn runtime_with(config: RunConfig) -> (RuntimeHandle, RuntimeEventReceiver) {
    let mut handle = RuntimeHandle::new(config, "session".to_owned(), 7);
    let events = handle.subscribe();
    (handle, events)
}

fn runtime() -> (RuntimeHandle, RuntimeEventReceiver) {
    runtime_with(RunConfig::default())
}

/// A run whose first attempt belongs to `CLIENT`.
fn connected() -> (RuntimeHandle, RuntimeEventReceiver) {
    let (mut handle, events) = runtime();
    let config = RunConfig::default();
    assert_eq!(handle.shared.start_run(&config, AT), Ok(true));
    assert!(handle.shared.admit_canonical_join_source(41));
    assert!(handle.shared.admit_client(CLIENT, AT));
    drain(events, &mut handle);
    handle.shared.take_effects();
    (handle, events)
}

fn spawn_player(handle: &mut RuntimeHandle) -> SpawnFollowUp {
    handle.shared.observe_login(CLIENT, Some("minecraft:overworld".to_owned()), AT);
    let was_dead = handle.shared.admit_spawn(CLIENT, 3).expect("spawn");
    let published = Arc::new(snapshot(handle.connection_epoch(), 1, "minecraft:overworld"));
    handle.shared.observation.snapshot = Some(published.clone());
    handle.shared.complete_spawn(Some(published), was_dead, AT)
}

/// A run whose player stands in the world.
fn ready() -> (RuntimeHandle, RuntimeEventReceiver) {
    let (mut handle, events) = connected();
    spawn_player(&mut handle);
    drain(events, &mut handle);
    handle.shared.take_effects();
    (handle, events)
}

fn drain(
    events: RuntimeEventReceiver,
    handle: &mut RuntimeHandle,
) -> Vec<Arc<BackendEventEnvelope>> {
    std::iter::from_fn(|| events.try_recv(&mut handle.shared)).collect()
}

fn lifecycle_of(event: &BackendEventEnvelope) -> &BackendLifecyclePayload {
    match &event.payload {
        BackendEventPayload::Lifecycle(payload) => payload,
        payload => panic!("expected a lifecycle event, got {payload:?}"),
    }
}

fn closes(events: &[Arc<BackendEventEnvelope>]) -> usize {
    events
        .iter()
        .filter(|event| {
            matches!(
                event.payload,
                BackendEventPayload::Lifecycle(BackendLifecyclePayload::ConnectionClosed { .. })
            )
        })
        .count()
}

fn stops(events: &[Arc<BackendEventEnvelope>]) -> usize {
    events
        .iter()
        .filter(|event| {
            matches!(
                event.payload,
                BackendEventPayload::Lifecycle(BackendLifecyclePayload::Stopped { .. })
            )
        })
        .count()
}

#[test]
fn a_refused_configuration_starts_nothing() {
    let (mut handle, events) = runtime();
    let mut config = RunConfig::default();
    config.port = 0;
    assert_eq!(handle.shared.start_run(&config, AT), Err(ConfigError::PortZero));
    assert_eq!(handle.connection_epoch(), 0);
    assert!(drain(events, &mut handle).is_empty());
}

#[test]
fn a_run_goes_through_its_phases_in_order() {
    let (mut handle, events) = runtime();
    assert_eq!(handle.state(), BackendState::Idle);
    assert_eq!(handle.shared.start_run(&RunConfig::default(), AT), Ok(true));
    assert_eq!(
        handle.state(),
        BackendState::Connecting { epoch: 1, attempt_id: AttemptId { epoch: 1 }, attempt: 1 }
    );
    assert!(handle.shared.admit_canonical_join_source(41));
    assert!(handle.shared.admit_client(CLIENT, AT));
    assert!(matches!(handle.state(), BackendState::LoggingIn { epoch: 1, .. }));
    assert_eq!(handle.shared.connection.active_client, Some(CLIENT));
    handle.shared.observe_login(CLIENT, None, AT);
    assert!(matches!(handle.state(), BackendState::Spawning { epoch: 1, .. }));
    assert_eq!(handle.shared.admit_spawn(CLIENT, 3), Some(false));
    let published = Arc::new(snapshot(1, 4, "minecraft:overworld"));
    let next = handle.shared.complete_spawn(Some(published), false, AT);
    assert_eq!(next, SpawnFollowUp { chat: None, stop_after_ms: Some(30_000) });
    assert_eq!(
        handle.state(),
        BackendState::Ready { epoch: 1, attempt_id: AttemptId { epoch: 1 }, ready_at: AT }
    );

    let told = drain(events, &mut handle);
    assert_eq!(told.len(), 5);
    assert_eq!(
        lifecycle_of(&told[0]),
        &BackendLifecyclePayload::ConnectionRequested { attempt: 1 }
    );
    assert_eq!(lifecycle_of(&told[1]), &BackendLifecyclePayload::TransportConnected);
    assert_eq!(
        lifecycle_of(&told[2]),
        &BackendLifecyclePayload::LoggedIn {
            version: "26.1.2".to_owned(),
            dimension: "minecraft:overworld".to_owned(),
        }
    );
    assert_eq!(
        lifecycle_of(&told[3]),
        &BackendLifecyclePayload::Ready { snapshot_revision: 4 }
    );
    assert_eq!(told[4].kind(), BackendEventKind::SnapshotChanged);
    let ids: Vec<String> = told.iter().map(|event| event.id.text()).collect();
    assert_eq!(ids, vec!["event-1", "event-2", "event-3", "event-4", "event-5"]);
    assert_eq!(told[0].source, FactSource::Commanded);
    assert_eq!(told[0].id, EventId::Event(1));
    assert_eq!(told[2].connection_attempt_id.text(), "attempt-1");
}

#[test]
fn a_run_begins_once() {
    let mut config = RunConfig::default();
    config.initial_chat = Some("hello".to_owned());
    let (mut handle, _events) = runtime_with(config);
    assert_eq!(handle.shared.start_run(&RunConfig::default(), AT), Ok(true));
    assert!(handle.shared.admit_canonical_join_source(41));
    assert!(handle.shared.admit_client(CLIENT, AT));
    assert_eq!(
        spawn_player(&mut handle),
        SpawnFollowUp { chat: Some("hello".to_owned()), stop_after_ms: Some(30_000) }
    );
    assert_eq!(
        handle.shared.complete_spawn(None, false, AT),
        SpawnFollowUp { chat: None, stop_after_ms: None }
    );
}

#[test]
fn another_client_is_not_listened_to() {
    let (mut handle, events) = connected();
    let other = ClientRef { entity: 6, attempt_token: Some(42) };
    assert!(!handle.shared.client_may_act(other));
    assert!(handle.shared.client_may_act(CLIENT));
    handle.shared.observe_login(other, None, AT);
    assert_eq!(handle.shared.admit_spawn(other, 1), None);
    handle.shared.observe_chat(other, None, "x".to_owned(), AT);
    handle.shared.observe_player_list(
        other,
        PlayerListEvent::Remove { uuid: "u".to_owned(), username: "n".to_owned() },
        AT,
    );
    assert!(drain(events, &mut handle).is_empty());
    handle.shared.observe_chat(CLIENT, None, "x".to_owned(), AT);
    handle.shared.observe_player_list(
        CLIENT,
        PlayerListEvent::Remove { uuid: "u".to_owned(), username: "n".to_owned() },
        AT,
    );
    let told = drain(events, &mut handle);
    assert_eq!(told[0].kind(), BackendEventKind::Chat);
    assert_eq!(
        told[0].payload,
        BackendEventPayload::Chat(ChatEvent {
            sender_username: None,
            plain_text: "x".to_owned(),
            position: Some(ChatPosition::Chat),
            verified: None,
        })
    );
    assert_eq!(told[1].kind(), BackendEventKind::PlayerList);
}

#[test]
fn a_predicted_snapshot_is_due_at_every_fifth_tick() {
    let (mut handle, _events) = ready();
    let due: Vec<bool> = (0..11).map(|_| handle.shared.admit_tick(CLIENT)).collect();
    assert_eq!(
        due,
        vec![true, false, false, false, false, true, false, false, false, false, true]
    );
    assert!(!handle.shared.admit_tick(ClientRef { entity: 6, attempt_token: None }));
}

#[test]
fn there_is_one_death_per_life() {
    let (mut handle, events) = ready();
    assert!(handle.shared.client_death_is_admissible(CLIENT));
    assert_eq!(handle.shared.admit_death_and_release(true, AT), Some(true));
    assert!(!handle.shared.client_death_is_admissible(CLIENT));
    assert_eq!(handle.shared.admit_death_and_release(true, AT), None);
    let told = drain(events, &mut handle);
    assert_eq!(told.len(), 1);
    assert_eq!(lifecycle_of(&told[0]), &BackendLifecyclePayload::Died);
    assert!(matches!(handle.state(), BackendState::Dead { epoch: 1, died_at: AT, .. }));

    // Another life may end again.
    assert_eq!(handle.shared.admit_spawn(CLIENT, 3), Some(true));
    let published = Arc::new(snapshot(1, 2, "minecraft:overworld"));
    handle.shared.complete_spawn(Some(published), true, AT);
    let told = drain(events, &mut handle);
    assert_eq!(
        lifecycle_of(&told[0]),
        &BackendLifecyclePayload::Respawned { dimension: "minecraft:overworld".to_owned() }
    );
    assert_eq!(handle.shared.admit_death_and_release(true, AT), Some(true));
}

#[test]
fn there_is_one_fault_per_attempt() {
    let (mut handle, events) = connected();
    let failure = || BackendFailure {
        code: BackendFailureCode::ProtocolError,
        message: FailureMessage::Text("broken".to_owned()),
        retryable: false,
    };
    assert!(handle.shared.emit_faulted(failure(), AT));
    assert!(!handle.shared.emit_faulted(failure(), AT));
    let told = drain(events, &mut handle);
    assert_eq!(told.len(), 1);
    assert_eq!(
        lifecycle_of(&told[0]),
        &BackendLifecyclePayload::Faulted { failure: failure() }
    );
    assert_eq!(handle.state(), BackendState::Faulted { failure: failure() });
}

#[test]
fn a_close_is_told_once() {
    let (mut handle, events) = ready();
    let close = handle.shared.mark_disconnected(Some("Kicked".to_owned()), AT);
    assert_eq!(close.code, CloseCode::UnclassifiedKick);
    let again = handle.shared.mark_disconnected(Some("other".to_owned()), AT);
    assert_eq!(again, close);
    assert_eq!(closes(&drain(events, &mut handle)), 1);
}

#[test]
fn reasons_are_classified() {
    let class = |reason: &str| classify_close(&Some(reason.to_owned()));
    assert_eq!(classify_close(&None), CloseClass::Ended);
    assert_eq!(class("Server closed"), CloseClass::ServerShutdown);
    assert_eq!(class("something odd"), CloseClass::Unclassified);
    let refused = CloseEvidence::from_reason(Some("You are banned".to_owned()), true);
    assert_eq!(refused.code, CloseCode::PermissionDenied);
    assert!(!refused.retryable);
    assert_eq!(refused.kick.as_ref().map(|kick| kick.during_login), Some(true));
    let ended = CloseEvidence::from_reason(None, false);
    assert_eq!(ended.code, CloseCode::ConnectionEnded);
    assert!(ended.retryable);
    assert!(ended.kick.is_none());
    let failed = CloseEvidence::from_failure("no route".to_owned());
    assert_eq!(failed.code, CloseCode::ConnectionFailed);
    assert_eq!(failed.error.map(|error| error.message), Some("no route".to_owned()));
}

#[test]
fn a_timeout_closes_with_the_code_of_its_phase() {
    for (phase, code) in [
        (TransportPhase::Connecting, CloseCode::ConnectionTimeout),
        (TransportPhase::LoggingIn, CloseCode::LoginTimeout),
        (TransportPhase::Spawning, CloseCode::SpawnTimeout),
    ] {
        let evidence = CloseEvidence::timeout_close_evidence(phase);
        assert_eq!(evidence.code, code);
        assert_eq!(evidence.end_reason, Some(EndReason::Code(code)));
        assert!(evidence.retryable);
    }
}

#[test]
fn a_disconnect_leads_to_one_retry() {
    let (mut handle, events) = ready();
    // The owner's own report comes before that of the client's manager.
    assert_eq!(handle.shared.handle_swarm_disconnect(Some(41), AT), SwarmDisconnect::Ignored);
    assert!(handle
        .shared
        .admit_canonical_disconnected_source_with_token(5, None, Some(41), AT)
        .is_some());
    let close = match handle.shared.handle_swarm_disconnect(Some(41), AT) {
        SwarmDisconnect::Retry { close } => close,
        other => panic!("expected a retry, got {other:?}"),
    };
    assert_eq!(close.code, CloseCode::ConnectionEnded);
    assert_eq!(handle.shared.handle_swarm_disconnect(Some(41), AT), SwarmDisconnect::Ignored);
    drain(events, &mut handle);

    assert_eq!(handle.shared.emit_reconnect_scheduled(&close, 1_500, AT), Some(1_500));
    let told = drain(events, &mut handle);
    assert_eq!(
        lifecycle_of(&told[0]),
        &BackendLifecyclePayload::ReconnectScheduled {
            attempt: 2,
            retry_at: UtcInstant { seconds: 1_700_000_001, nanos: 500_000_000 },
            close_code: CloseCode::ConnectionEnded,
        }
    );
    assert!(matches!(handle.state(), BackendState::Reconnecting { attempt: 2, .. }));

    let token = handle.shared.admit_reconnect_attempt(AT).expect("retry");
    assert!(handle.shared.reconnect_add_is_allowed(token));
    assert_eq!(handle.connection_epoch(), 2);
    let next = ClientRef { entity: 8, attempt_token: Some(42) };
    assert!(handle.shared.admit_canonical_join_source(42));
    assert!(handle.shared.complete_retry(token, next, AT));
    assert_eq!(handle.shared.connection.active_client, Some(next));
    assert!(!handle.shared.reconnect_add_is_allowed(token));
    assert!(!handle.shared.client_may_act(CLIENT));
    assert!(handle.shared.client_may_act(next));
}

#[test]
fn a_disconnect_without_retries_is_a_fault() {
    let mut config = RunConfig::default();
    config.reconnect.enabled = false;
    let (mut handle, events) = runtime_with(config);
    assert_eq!(handle.shared.start_run(&RunConfig::default(), AT), Ok(true));
    assert!(handle.shared.admit_canonical_join_source(41));
    assert!(handle.shared.admit_client(CLIENT, AT));
    drain(events, &mut handle);
    assert!(handle
        .shared
        .admit_canonical_disconnected_source_with_token(5, None, Some(41), AT)
        .is_some());
    assert_eq!(handle.shared.handle_swarm_disconnect(Some(41), AT), SwarmDisconnect::Faulted);
    let told = drain(events, &mut handle);
    assert!(told.iter().any(|event| matches!(
        &event.payload,
        BackendEventPayload::Lifecycle(BackendLifecyclePayload::Faulted { failure })
            if failure.code == BackendFailureCode::ReconnectDisabled
                && failure.message
                    == FailureMessage::ReconnectDisabled(CloseCode::ConnectionEnded)
    )));
    assert!(handle.shared.flags.shutdown_requested);
    assert!(handle.shared.take_effects().iter().any(|effect| matches!(effect, Effect::Shutdown)));
}

#[test]
fn a_stop_is_final() {
    let (mut handle, events) = ready();
    handle.stop("done".to_owned(), AT);
    let told = drain(events, &mut handle);
    assert_eq!(closes(&told), 1);
    assert_eq!(stops(&told), 1);
    assert_eq!(
        handle.state(),
        BackendState::Stopped { reason: Some(StopReason::Given("done".to_owned())) }
    );
    handle.stop("again".to_owned(), AT);
    assert!(drain(events, &mut handle).is_empty());
    assert!(!handle.shared.begin_connection_attempt(AT));
    assert!(handle.send_chat("late".to_owned(), AT).is_err());
    assert_eq!(handle.shared.handle_swarm_disconnect(None, AT), SwarmDisconnect::Ignored);
    assert_eq!(handle.shared.admit_reconnect_attempt(AT), None);
    let deliberate = handle.shared.connection.last_close.as_ref().expect("close");
    assert!(deliberate.deliberate);
    assert_eq!(deliberate.code, CloseCode::DeliberateStop);
}

#[test]
fn an_idle_runtime_stops_without_a_close() {
    let (mut handle, events) = runtime();
    handle.stop("idle".to_owned(), AT);
    let told = drain(events, &mut handle);
    assert_eq!(told.len(), 1);
    assert_eq!(
        lifecycle_of(&told[0]),
        &BackendLifecyclePayload::Stopped { reason: StopReason::Given("idle".to_owned()) }
    );
    assert!(matches!(handle.state(), BackendState::Stopped { .. }));
}

#[test]
fn deadlines_of_a_phase_are_void_once_it_is_over() {
    let (mut handle, events) = runtime();
    assert_eq!(handle.shared.start_run(&RunConfig::default(), AT), Ok(true));
    assert!(handle.shared.admit_canonical_join_source(41));
    assert!(handle.shared.admit_client(CLIENT, AT));
    let token = handle
        .shared
        .take_effects()
        .into_iter()
        .find_map(|effect| match effect {
            Effect::StartPhaseDeadline { token, after_ms: 20_000 } => Some(token),
            _ => None,
        })
        .expect("a deadline for the login");
    assert_eq!(token.phase, TransportPhase::LoggingIn);
    assert!(handle.shared.phase_deadline_matches(token));
    assert_eq!(handle.shared.phase_timeout(TransportPhase::Connecting), 10_000);
    assert_eq!(handle.shared.phase_timeout(TransportPhase::Spawning), 30_000);

    handle.shared.observe_login(CLIENT, None, AT);
    assert!(!handle.shared.phase_deadline_matches(token));
    drain(events, &mut handle);
    handle.shared.fire_phase_deadline(token, AT);
    assert!(drain(events, &mut handle).is_empty());
}

#[test]
fn a_deadline_that_passes_closes_its_attempt() {
    let (mut handle, events) = runtime();
    assert_eq!(handle.shared.start_run(&RunConfig::default(), AT), Ok(true));
    let token = PhaseDeadlineToken {
        epoch: 1,
        attempt: handle.shared.counters.retry_ordinal,
        phase: TransportPhase::Connecting,
        generation: handle.shared.counters.phase_generation,
    };
    assert!(handle.shared.phase_deadline_matches(token));
    drain(events, &mut handle);
    handle.shared.fire_phase_deadline(token, AT);
    let told = drain(events, &mut handle);
    assert_eq!(closes(&told), 1);
    assert_eq!(
        handle.shared.connection.last_close.as_ref().map(|close| close.code),
        Some(CloseCode::ConnectionTimeout)
    );
}

#[test]
fn a_stable_connection_resets_the_retry_count() {
    let (mut handle, _events) = connected();
    handle.shared.counters.retry_ordinal = 4;
    spawn_player(&mut handle);
    let token = handle
        .shared
        .take_effects()
        .into_iter()
        .find_map(|effect| match effect {
            Effect::StartStableReset { token, after_ms: 60_000 } => Some(token),
            _ => None,
        })
        .expect("a reset of the retry count");
    assert!(handle.shared.stable_reset_matches(token));
    handle.shared.fire_stable_reset(token);
    assert_eq!(handle.shared.counters.retry_ordinal, 0);
    handle.shared.invalidate_stable_reset();
    assert!(!handle.shared.stable_reset_matches(token));
}

#[test]
fn the_retry_ordinal_is_shown_within_range() {
    assert_eq!(attempt_shown(3), 3);
    assert_eq!(attempt_shown(u64::MAX), u32::MAX);
}

#[test]
fn another_attempt_starts_afresh() {
    let (mut handle, _events) = ready();
    handle.shared.observation.armor = Some(3);
    handle.shared.observation.armor_epoch = Some(1);
    assert!(handle.shared.begin_connection_attempt(AT));
    assert_eq!(handle.connection_epoch(), 2);
    assert_eq!(handle.snapshot(), None);
    assert_eq!(handle.snapshot_source(), None);
    assert!(handle.shared.observation.tracked_entities.is_empty());
    assert!(!handle.shared.client_may_act(CLIENT));
    assert!(handle.capture_frame_facts().is_none());
}

#[test]
fn a_reused_entity_needs_its_token() {
    let mut fence = SourceFence {
        last_bound: None,
        pending_rebind_entity: None,
        ambiguous: false,
    };
    fence.bind(5);
    assert!(fence.allows_unstamped(5));
    fence.begin_attempt();
    fence.bind(5);
    assert!(!fence.allows_unstamped(5));
    assert!(!fence.allows_unstamped_global());
    fence.begin_attempt();
    fence.bind(6);
    assert!(fence.allows_unstamped(6));
}

#[test]
fn a_token_never_changes_its_epoch() {
    let mut bindings = SourceTokenBindings::new();
    assert!(bindings.bind(41, 1));
    assert!(bindings.bind(41, 1));
    assert!(!bindings.bind(41, 2));
    assert!(bindings.matches(41, 1));
    assert!(!bindings.matches(41, 2));
    assert!(!bindings.matches(42, 1));
}

#[test]
fn a_failed_connection_is_followed_once() {
    let (mut handle, _events) = connected();
    assert!(handle
        .shared
        .admit_canonical_connection_failed_source_with_token(
            5,
            "reset".to_owned(),
            Some(41),
            AT
        )
        .is_some());
    assert!(handle.shared.follow_connection_failure(CLIENT));
    assert!(!handle.shared.follow_connection_failure(CLIENT));
}

#[test]
fn a_pending_connection_is_taken_by_its_own_attempt() {
    let (mut handle, _events) = runtime();
    assert!(handle.shared.begin_connection_attempt(AT));
    handle.shared.record_pending_connection(9, 41);
    let ordinal = handle.shared.counters.retry_ordinal;
    assert_eq!(handle.shared.take_pending_connection(2, ordinal), None);
    assert_eq!(handle.shared.take_pending_connection(1, ordinal), Some((9, 41)));
    assert_eq!(handle.shared.take_pending_connection(1, ordinal), None);
}

#[test]
fn the_watchdog_of_another_stop_ends_nothing() {
    let (mut handle, _events) = ready();
    handle.shared.fire_stop_watchdog(StopWatchdogToken { generation: 99 }, AT);
    assert!(matches!(handle.state(), BackendState::Ready { .. }));
}

#[test]
fn the_failure_of_a_close_says_why_it_is_final() {
    let mut config = RunConfig::default();
    config.reconnect.enabled = false;
    let (handle, _events) = runtime_with(config);
    let close = |retryable: bool| BackendClose {
        epoch: 1,
        at: AT,
        code: CloseCode::ServerShutdown,
        retryable,
        deliberate: false,
        kick: None,
        error: None,
        end_reason: None,
    };
    let fatal = handle.shared.failure_for_close(&close(false));
    assert_eq!(fatal.message, FailureMessage::NonRetryable(CloseCode::ServerShutdown));
    assert!(!fatal.retryable);
    let disabled = handle.shared.failure_for_close(&close(true));
    assert_eq!(disabled.message, FailureMessage::ReconnectDisabled(CloseCode::ServerShutdown));
}

#[test]
fn the_clock_of_a_run_may_be_off() {
    let mut config = RunConfig::default();
    config.auto_stop = false;
    let (mut handle, _events) = runtime_with(config);
    assert_eq!(handle.shared.start_run(&RunConfig::default(), AT), Ok(true));
    assert!(handle.shared.admit_canonical_join_source(41));
    assert!(handle.shared.admit_client(CLIENT, AT));
    assert_eq!(spawn_player(&mut handle).stop_after_ms, None);
}

#[test]
fn a_respawn_packet_tells_where_the_player_died() {
    let (mut handle, events) = ready();
    handle.shared.record_respawn_packet(AT);
    let told = drain(events, &mut handle);
    assert_eq!(told.len(), 1);
    assert_eq!(
        lifecycle_of(&told[0]),
        &BackendLifecyclePayload::RespawnTransitionStarted {
            from_dimension: "minecraft:overworld".to_owned(),
        }
    );
}

#[test]
fn the_swarm_is_asked_to_leave() {
    let (mut handle, _events) = connected();
    assert!(handle.shared.set_swarm(4));
    assert!(handle.shared.exit_swarm());
    assert!(handle
        .shared
        .take_effects()
        .iter()
        .any(|effect| matches!(effect, Effect::ExitSwarm(4))));
}

#[test]
fn jitter_is_drawn_from_the_seed() {
    let (mut handle, _events) = runtime();
    assert_eq!(
        handle.shared.draw_jitter(),
        7u64.wrapping_mul(6_364_136_223_846_793_005).wrapping_add(1) / 2048
    );
}

#[test]
fn stale_sources_are_refused() {
    let (mut handle, _events) = connected();
    let source = handle
        .shared
        .admit_canonical_source_with_token(5, Some(41))
        .expect("the owner's source");
    assert!(handle.shared.canonical_source_still_valid(source));
    assert!(handle.shared.admit_canonical_source_with_token(5, Some(42)).is_none());
    assert!(handle.shared.admit_canonical_source_with_token(6, Some(41)).is_none());
    assert!(handle.shared.reset_entity_scope_for_owner(5));
    assert!(!handle.shared.canonical_source_still_valid(source));
}

#[test]
fn an_epoch_error_tells_both_epochs() {
    let (mut handle, _events) = ready();
    let source = handle.observation_source();
    assert!(source.self_pose(&handle.shared).is_ok());
    assert!(handle.shared.begin_connection_attempt(AT));
    assert_eq!(
        source.self_pose(&handle.shared),
        Err(BackendError::StaleEpoch { bound_epoch: 1, current_epoch: 2 })
    );
}

#[test]
fn a_change_of_dimension_is_told() {
    let (mut handle, events) = ready();
    drain(events, &mut handle);
    handle.shared.observe_dimension("minecraft:the_nether".to_owned(), AT);
    let told = drain(events, &mut handle);
    assert_eq!(told.len(), 1);
    assert_eq!(
        lifecycle_of(&told[0]),
        &BackendLifecyclePayload::DimensionChanged {
            from: "minecraft:overworld".to_owned(),
            to: "minecraft:the_nether".to_owned(),
        }
    );
    handle.shared.observe_dimension("minecraft:the_nether".to_owned(), AT);
    assert!(drain(events, &mut handle).is_empty());
}

#[test]
fn a_retry_is_claimed_once_before_the_client_is_there() {
    let (mut handle, _events) = runtime();
    assert!(handle.shared.claim_pre_init_reconnect());
    assert!(!handle.shared.claim_pre_init_reconnect());
    handle.shared.finish_reconnect_attempt(0);
    assert!(handle.shared.claim_pre_init_reconnect());
}
