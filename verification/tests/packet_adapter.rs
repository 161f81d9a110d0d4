use std::sync::Arc;

use mineintent_backend::config::RunConfig;
use mineintent_backend::contract::{
    AttemptId, BackendError, BackendEventEnvelope, BackendEventPayload, BackendLifecyclePayload,
    FactSource,
};
use mineintent_backend::entity_events::{
    AxisFlags, AxisSteps, CompactLook, EntityIdentity, EntityMovePatch, EntityPose,
    EntityProducerInput, EntityProducerToken, MoveArithmetic, NormalizedEntityEvent,
    NormalizedEntitySnapshot, WideLook,
};
use mineintent_backend::handle::{RuntimeEventReceiver, RuntimeHandle};
use mineintent_backend::number::{Double, Single, Vec3Value};
use mineintent_backend::observation::RuntimeObservationSource;
use mineintent_backend::producers::{AddedEntity, EntityPacket, GamePacket, RemovalPacket};
use mineintent_backend::snapshot::{
    ExperienceSnapshot, InventorySnapshot, MinecraftSnapshotV1, SelfSnapshot, WorldSnapshot,
};
use mineintent_backend::state::{Effect, SharedRuntime};
use mineintent_backend::time::UtcInstant;
use mineintent_backend::tracking::{
    merge_refreshed_tracked_entities, EntityObservationResidual, EntityResidualAction,
    ObservationState, ENTITY_OBSERVATION_RESIDUAL_CAPACITY,
};

const AT: UtcInstant = UtcInstant { seconds: 1_700_000_000, nanos: 0 };

fn double(value: f64) -> Double {
    Double { bits: value.to_bits() }
}

fn value(number: Double) -> f64 {
    f64::from_bits(number.bits)
}

fn vec3(x: f64, y: f64, z: f64) -> Vec3Value {
    Vec3Value { x: double(x), y: double(y), z: double(z) }
}

fn turn_degrees(step: i8) -> f64 {
    f64::from(step) * 360.0 / 256.0
}

fn snapshot(epoch: u64, protocol_id: i32, x: f64) -> NormalizedEntitySnapshot {
    NormalizedEntitySnapshot {
        identity: EntityIdentity::new(epoch, protocol_id),
        entity_type: "minecraft:pig".to_owned(),
        uuid: Some(format!("entity-{protocol_id}")),
        name: None,
        username: None,
        position: vec3(x, 64.0, -3.0),
        velocity: vec3(0.25, 0.0, -0.5),
        yaw: double(45.0),
        pitch: double(-11.25),
        head_yaw: Some(double(90.0)),
        width: double(0.9),
        height: double(0.9),
        on_ground: true,
        pose: None,
        held_item_name: None,
        equipment: Arc::new(Vec::new()),
        valid: true,
    }
}

fn token(epoch: u64, admission: u64) -> EntityProducerToken {
    EntityProducerToken::new(epoch, format!("packet:{admission}"))
}

fn spawn(epoch: u64, admission: u64, snapshot: NormalizedEntitySnapshot) -> EntityProducerInput {
    EntityProducerInput::Spawn { token: token(epoch, admission), snapshot }
}

fn remove(epoch: u64, admission: u64, id: i32) -> EntityProducerInput {
    EntityProducerInput::Remove {
        token: token(epoch, admission),
        entity: EntityIdentity::new(epoch, id),
    }
}

/// The outcome of a movement that changes the position and velocity alone.
fn moved_to(position: Vec3Value, velocity: Vec3Value) -> MoveArithmetic {
    MoveArithmetic {
        position,
        velocity,
        yaw: double(45.0),
        pitch: double(-11.25),
        head_yaw: double(90.0),
    }
}

/// One block along the first axis.
fn step_east(
    shared: &SharedRuntime,
    epoch: u64,
    admission: u64,
    id: i32,
    on_ground: bool,
) -> EntityProducerInput {
    let entity = EntityIdentity::new(epoch, id);
    let before = shared.producer.cache.shadow(entity).expect("known entity");
    let position = vec3(
        ((value(before.position.x) * 4096.0).round() + 4096.0) / 4096.0,
        value(before.position.y),
        value(before.position.z),
    );
    EntityProducerInput::Move {
        token: token(epoch, admission),
        patch: EntityMovePatch::relative(
            entity,
            Some(AxisSteps { x: 4096, y: 0, z: 0 }),
            None,
            on_ground,
        ),
        computed: moved_to(position, before.velocity),
    }
}

fn runtime() -> RuntimeHandle {
    RuntimeHandle::new(RunConfig::default(), "session".to_owned(), 1)
}

fn received(
    events: RuntimeEventReceiver,
    handle: &mut RuntimeHandle,
) -> Option<Arc<BackendEventEnvelope>> {
    events.try_recv(&mut handle.shared)
}

const OWNER: u64 = 5;
const SELF_ID: i32 = 99;
const ATTEMPT_TOKEN: u64 = 41;
const EVERY_AXIS_ABSOLUTE: AxisFlags = AxisFlags { x: false, y: false, z: false };

fn single(value: f32) -> Single {
    Single { bits: value.to_bits() }
}

fn scope_snapshot(epoch: u64) -> MinecraftSnapshotV1 {
    MinecraftSnapshotV1 {
        snapshot_revision: 1,
        lifecycle_revision: 1,
        captured_at: AT,
        process_session_id: "scope-test".to_owned(),
        connection_epoch: epoch,
        connection_attempt_id: AttemptId { epoch },
        world: WorldSnapshot {
            world_id: "scope-world".to_owned(),
            dimension: "minecraft:overworld".to_owned(),
            minecraft_version: "26.1.2".to_owned(),
            protocol_version: 775,
            game_mode: "survival".to_owned(),
            min_y: -64,
            height: 384,
        },
        self_snapshot: SelfSnapshot {
            entity_key: "scope-self".to_owned(),
            username: "scope".to_owned(),
            position: vec3(0.0, 64.0, 0.0),
            velocity: vec3(0.0, 0.0, 0.0),
            yaw: single(0.0),
            pitch: single(0.0),
            on_ground: true,
            alive: true,
            health: single(20.0),
            food: 20,
            food_saturation: single(5.0),
            experience: ExperienceSnapshot { level: 0, progress: single(0.0), total: 0 },
        },
        inventory: InventorySnapshot { selected_hotbar_slot: 0, slots: Vec::new() },
        tracked_players: Vec::new(),
    }
}

/// A runtime whose first attempt is bound to `OWNER` with the given token, and
/// whose first two events have been received.
fn bound_runtime(attempt_token: Option<u64>) -> (RuntimeHandle, RuntimeEventReceiver) {
    let mut handle = runtime();
    let events = handle.subscribe();
    assert!(handle.shared.begin_connection_attempt(AT));
    received(events, &mut handle).expect("request");
    if attempt_token.is_some() {
        assert!(handle.shared.admit_canonical_join_started_with_token(1, attempt_token));
    }
    assert_eq!(
        handle
            .shared
            .consume_attempt_for_transport_init_and_bind_with_token(OWNER, attempt_token, AT),
        Some(1)
    );
    received(events, &mut handle).expect("transport");
    handle.shared.take_effects();
    (handle, events)
}

fn drain(
    events: RuntimeEventReceiver,
    handle: &mut RuntimeHandle,
) -> Vec<Arc<BackendEventEnvelope>> {
    std::iter::from_fn(|| received(events, handle)).collect()
}

fn send_packet(handle: &mut RuntimeHandle, local: Option<i32>, packet: GamePacket) {
    handle.shared.produce_entity_packet_event(OWNER, ATTEMPT_TOKEN, local, packet, AT);
}

/// Performs the deliveries that are due: each reads the tracked entities inside
/// the callback.
fn perform_callbacks(
    handle: &mut RuntimeHandle,
    source: &RuntimeObservationSource,
    subscription: u64,
    states: &mut Vec<Vec<Arc<NormalizedEntitySnapshot>>>,
) {
    for effect in handle.shared.take_effects() {
        if let Effect::Deliver { subscription: id, .. } = effect {
            assert_eq!(id, subscription);
            assert!(handle.shared.start_observation_callback(id));
            states.push(
                source.list_tracked_entities(&handle.shared).expect("callback observation"),
            );
            handle.shared.finish_observation_callback(id);
        }
    }
}

fn production_add_packet(id: i32) -> GamePacket {
    GamePacket::Entity(EntityPacket::Add(AddedEntity {
        id,
        entity_type: "dark_oak_chest_boat".to_owned(),
        uuid: "00000000-0000-0000-0000-000000000000".to_owned(),
        position: vec3(10.0, 64.0, 2.0),
        velocity: vec3(0.25, 0.0, -0.5),
        yaw: double(turn_degrees(16)),
        pitch: double(turn_degrees(-8)),
        head_yaw: double(turn_degrees(32)),
        width: double(1.375),
        height: double(0.5625),
    }))
}

fn step_packet(id: i32) -> GamePacket {
    GamePacket::Entity(EntityPacket::MovePos {
        id,
        delta: AxisSteps { x: 4096, y: 0, z: 0 },
        on_ground: false,
        computed: moved_to(vec3(11.0, 64.0, 2.0), vec3(0.25, 0.0, -0.5)),
    })
}

fn teleport_packet(id: i32) -> GamePacket {
    GamePacket::Entity(EntityPacket::Teleport {
        id,
        position: vec3(20.0, 1.0, -4.0),
        look: WideLook { yaw: double(90.0), pitch: double(-10.0) },
        relative_position: AxisFlags { x: false, y: true, z: false },
        relative_yaw: false,
        relative_pitch: false,
        velocity: vec3(0.5, 0.0, 0.25),
        relative_velocity: AxisFlags { x: true, y: false, z: true },
        rotate_velocity: false,
        on_ground: true,
        computed: MoveArithmetic {
            position: vec3(20.0, 65.0, -4.0),
            velocity: vec3(0.75, 0.0, -0.25),
            yaw: double(90.0),
            pitch: double(-10.0),
            head_yaw: double(0.0),
        },
    })
}

fn sync_packet(id: i32) -> GamePacket {
    GamePacket::Entity(EntityPacket::PositionSync {
        id,
        position: vec3(30.0, 66.0, -5.0),
        look: WideLook { yaw: double(120.0), pitch: double(-20.0) },
        velocity: vec3(0.0, 1.0, 0.0),
        on_ground: false,
        computed: MoveArithmetic {
            position: vec3(30.0, 66.0, -5.0),
            velocity: vec3(0.0, 1.0, 0.0),
            yaw: double(120.0),
            pitch: double(-20.0),
            head_yaw: double(0.0),
        },
    })
}

fn motion_packet(id: i32) -> GamePacket {
    GamePacket::Entity(EntityPacket::SetMotion { id, velocity: vec3(2.0, 3.0, 4.0) })
}

fn head_packet(id: i32, head_yaw: i8) -> GamePacket {
    GamePacket::Entity(EntityPacket::RotateHead {
        id,
        head_yaw,
        computed: MoveArithmetic {
            position: vec3(30.0, 66.0, -5.0),
            velocity: vec3(0.0, 1.0, 0.0),
            yaw: double(120.0),
            pitch: double(-20.0),
            head_yaw: double(turn_degrees(head_yaw)),
        },
    })
}

/// Admits a removal packet and removes its entities one by one. After each of
/// them the deliveries that are due can be performed.
fn send_removal(
    handle: &mut RuntimeHandle,
    local: Option<i32>,
    ids: &[i32],
    mut after_each: impl FnMut(&mut RuntimeHandle),
) {
    let packet =
        handle.shared.admit_removal_packet(OWNER, ATTEMPT_TOKEN).expect("the owner's packet");
    for (index, id) in ids.iter().enumerate() {
        handle.shared.remove_packet_entity(packet, local, index as u64, *id, AT);
        after_each(handle);
    }
}

fn moved(event: &Arc<BackendEventEnvelope>) -> Arc<NormalizedEntitySnapshot> {
    match &event.payload {
        BackendEventPayload::Entity(NormalizedEntityEvent::Moved { entity }) => entity.clone(),
        payload => panic!("expected a move, got {payload:?}"),
    }
}

fn spawned(event: &Arc<BackendEventEnvelope>) -> Arc<NormalizedEntitySnapshot> {
    match &event.payload {
        BackendEventPayload::Entity(NormalizedEntityEvent::Spawned { entity }) => entity.clone(),
        payload => panic!("expected a spawn, got {payload:?}"),
    }
}

#[test]
fn production_packet_batch_keeps_each_callback_at_post_state() {
    let (mut handle, events) = bound_runtime(Some(ATTEMPT_TOKEN));
    let source = handle.observation_source();
    let subscription =
        source.subscribe_listener(&mut handle.shared).expect("callback subscription");
    let mut states = Vec::new();

    for packet in [
        production_add_packet(7),
        step_packet(7),
        teleport_packet(7),
        sync_packet(7),
        motion_packet(7),
        head_packet(7, 64),
    ] {
        send_packet(&mut handle, Some(SELF_ID), packet);
        perform_callbacks(&mut handle, &source, subscription, &mut states);
    }
    send_removal(&mut handle, Some(SELF_ID), &[7], |handle| {
        perform_callbacks(handle, &source, subscription, &mut states);
    });

    let emitted = drain(events, &mut handle);
    assert_eq!(emitted.len(), 6, "SetEntityMotion must not emit an envelope");
    assert_eq!(spawned(&emitted[0]).entity_key(), "1:7");
    assert_eq!(value(moved(&emitted[1]).position.x), 11.0);
    assert_eq!(value(moved(&emitted[2]).position.x), 20.0);
    assert_eq!(value(moved(&emitted[3]).position.x), 30.0);
    assert!(moved(&emitted[4]).head_yaw.is_some_and(|yaw| (value(yaw) - 90.0).abs() < 1e-6));
    assert!(
        matches!(
            &emitted[5].payload,
            BackendEventPayload::Entity(NormalizedEntityEvent::Removed { last, .. })
                if last.entity_key() == "1:7" && (value(last.velocity.x) - 2.0).abs() < 0.001
        ),
        "unexpected Remove payload: {:?}",
        emitted[5].payload
    );

    assert_eq!(states.len(), 6);
    assert_eq!(value(states[0][0].position.x), 10.0);
    assert_eq!(value(states[1][0].position.x), 11.0);
    assert_eq!(states[2][0].position, vec3(20.0, 65.0, -4.0));
    assert_eq!(states[3][0].position, vec3(30.0, 66.0, -5.0));
    assert!((value(states[3][0].velocity.y) - 1.0).abs() < 1e-6);
    assert!((value(states[4][0].velocity.x) - 2.0).abs() < 0.001);
    assert!((value(states[4][0].velocity.y) - 3.0).abs() < 0.001);
    assert!((value(states[4][0].velocity.z) - 4.0).abs() < 0.001);
    assert!(states[5].is_empty(), "Remove callback must see an empty list");
}

#[test]
fn production_packet_batch_login_respawn_add_preserves_dimension_order() {
    let (mut handle, events) = bound_runtime(Some(ATTEMPT_TOKEN));
    let source = handle.observation_source();

    send_packet(
        &mut handle,
        Some(SELF_ID),
        GamePacket::Login { dimension: "minecraft:overworld".to_owned(), skylight: None },
    );
    send_packet(&mut handle, Some(SELF_ID), production_add_packet(7));

    let initial = drain(events, &mut handle);
    assert_eq!(initial.len(), 1, "initial Login must not invent a dimension change");
    assert_eq!(initial[0].dimension.as_deref(), Some("minecraft:overworld"));
    assert_eq!(spawned(&initial[0]).entity_key(), "1:7");

    send_packet(
        &mut handle,
        Some(SELF_ID),
        GamePacket::Respawn { dimension: "minecraft:the_nether".to_owned(), skylight: None },
    );
    send_packet(&mut handle, Some(SELF_ID), production_add_packet(8));

    let respawn = drain(events, &mut handle);
    assert_eq!(respawn.len(), 2);
    assert!(matches!(
        &respawn[0].payload,
        BackendEventPayload::Lifecycle(BackendLifecyclePayload::DimensionChanged { from, to })
            if from == "minecraft:overworld" && to == "minecraft:the_nether"
    ));
    assert_eq!(respawn[0].dimension.as_deref(), Some("minecraft:the_nether"));
    assert_eq!(spawned(&respawn[1]).entity_key(), "1:8");
    assert_eq!(respawn[1].dimension.as_deref(), Some("minecraft:the_nether"));
    let listed = source.list_tracked_entities(&handle.shared).expect("respawn observation");
    assert_eq!(listed.len(), 1);
    assert_eq!(listed[0].entity_key(), "1:8");
}

#[test]
fn production_packet_adapter_keeps_each_packet_post_state_and_excludes_self() {
    let (mut handle, events) = bound_runtime(Some(ATTEMPT_TOKEN));
    let source = handle.observation_source();
    let local = Some(SELF_ID);

    send_packet(&mut handle, local, production_add_packet(7));
    let shown = source.list_tracked_entities(&handle.shared).expect("packet Add observation");
    assert_eq!(shown.len(), 1);
    assert_eq!(shown[0].entity_key(), "1:7");
    assert_eq!(shown[0].entity_type, "dark_oak_chest_boat");
    assert_eq!(value(shown[0].position.x), 10.0);
    assert!((value(shown[0].head_yaw.expect("spawn head yaw")) - 45.0).abs() < 1e-6);
    let spawn_event = received(events, &mut handle).expect("Spawn envelope");
    assert_eq!(spawned(&spawn_event).entity_key(), "1:7");
    assert_eq!(spawned(&spawn_event).entity_type, "dark_oak_chest_boat");

    send_packet(&mut handle, local, step_packet(7));
    assert_eq!(
        value(source.list_tracked_entities(&handle.shared).unwrap()[0].position.x),
        11.0
    );
    let step_event = received(events, &mut handle).expect("relative Move envelope");
    assert_eq!(moved(&step_event).entity_key(), "1:7");
    assert_eq!(value(moved(&step_event).position.x), 11.0);

    send_packet(&mut handle, local, teleport_packet(7));
    let teleported = source.list_tracked_entities(&handle.shared).unwrap();
    assert_eq!(value(teleported[0].position.x), 20.0);
    assert_eq!(value(teleported[0].position.y), 65.0);
    assert_eq!(value(teleported[0].position.z), -4.0);
    let teleport_event = received(events, &mut handle).expect("Teleport envelope");
    assert_eq!(value(moved(&teleport_event).position.x), 20.0);

    send_packet(&mut handle, local, sync_packet(7));
    let synced = source.list_tracked_entities(&handle.shared).unwrap();
    assert_eq!(value(synced[0].position.x), 30.0);
    assert_eq!(value(synced[0].velocity.y), 1.0);
    let sync_event = received(events, &mut handle).expect("PositionSync envelope");
    assert_eq!(value(moved(&sync_event).position.x), 30.0);

    send_packet(&mut handle, local, head_packet(7, 64));
    assert_eq!(
        source.list_tracked_entities(&handle.shared).unwrap()[0].head_yaw.map(value),
        Some(90.0)
    );
    let head_event = received(events, &mut handle).expect("RotateHead envelope");
    assert!(moved(&head_event).head_yaw.is_some_and(|yaw| (value(yaw) - 90.0).abs() < 1e-6));

    send_packet(&mut handle, local, motion_packet(7));
    assert!(
        (value(source.list_tracked_entities(&handle.shared).unwrap()[0].velocity.x) - 2.0).abs()
            < 0.001
    );
    assert!(received(events, &mut handle).is_none(), "SetEntityMotion has no envelope");

    send_removal(&mut handle, local, &[7], |_| {});
    assert!(source.list_tracked_entities(&handle.shared).unwrap().is_empty());
    match &received(events, &mut handle).expect("Remove envelope").payload {
        BackendEventPayload::Entity(NormalizedEntityEvent::Removed { last, .. }) => {
            assert_eq!(last.entity_key(), "1:7");
            assert_eq!(value(last.position.x), 30.0);
            assert_eq!(last.head_yaw.map(value), Some(90.0));
            assert!((value(last.velocity.x) - 2.0).abs() < 0.001);
        }
        payload => panic!("expected Remove envelope, got {payload:?}"),
    }

    // Every kind of entity packet is refused for the player's own number.
    let still = moved_to(vec3(0.0, 0.0, 0.0), vec3(0.0, 0.0, 0.0));
    for packet in [
        production_add_packet(SELF_ID),
        GamePacket::Entity(EntityPacket::MovePos {
            id: SELF_ID,
            delta: AxisSteps { x: 0, y: 0, z: 0 },
            on_ground: false,
            computed: still,
        }),
        GamePacket::Entity(EntityPacket::MovePosRot {
            id: SELF_ID,
            delta: AxisSteps { x: 0, y: 0, z: 0 },
            look: CompactLook { yaw: 0, pitch: 0 },
            on_ground: false,
            computed: still,
        }),
        GamePacket::Entity(EntityPacket::MoveRot {
            id: SELF_ID,
            look: CompactLook { yaw: 0, pitch: 0 },
            on_ground: false,
            computed: still,
        }),
        teleport_packet(SELF_ID),
        sync_packet(SELF_ID),
        head_packet(SELF_ID, 1),
        motion_packet(SELF_ID),
    ] {
        send_packet(&mut handle, local, packet);
    }
    send_removal(&mut handle, local, &[SELF_ID], |_| {});
    assert!(source.list_tracked_entities(&handle.shared).unwrap().is_empty());
    assert!(received(events, &mut handle).is_none());

    // Entity packets are refused while the player's own number is unknown.
    send_packet(&mut handle, None, production_add_packet(8));
    assert!(source.list_tracked_entities(&handle.shared).unwrap().is_empty());
    assert!(received(events, &mut handle).is_none());
}

fn numbers(states: &[Arc<NormalizedEntitySnapshot>]) -> Vec<i32> {
    states.iter().map(|state| state.identity.protocol_id).collect()
}

#[test]
fn each_removal_of_a_packet_is_heard_before_the_next() {
    let (mut handle, events) = bound_runtime(Some(ATTEMPT_TOKEN));
    let source = handle.observation_source();
    for id in [7, 8, 9] {
        send_packet(&mut handle, Some(SELF_ID), production_add_packet(id));
    }
    handle.shared.take_effects();
    drain(events, &mut handle);
    let subscription =
        source.subscribe_listener(&mut handle.shared).expect("callback subscription");
    let mut states = Vec::new();

    send_removal(&mut handle, Some(SELF_ID), &[8, SELF_ID, 8, 7], |handle| {
        perform_callbacks(handle, &source, subscription, &mut states);
    });

    let seen: Vec<Vec<i32>> = states.iter().map(|state| numbers(state)).collect();
    assert_eq!(seen, vec![vec![7, 9], vec![9]]);
    let removed: Vec<String> = drain(events, &mut handle)
        .iter()
        .map(|event| match &event.payload {
            BackendEventPayload::Entity(NormalizedEntityEvent::Removed { last, .. }) => {
                last.entity_key()
            }
            payload => panic!("expected a removal, got {payload:?}"),
        })
        .collect();
    assert_eq!(removed, ["1:8", "1:7"]);
}

#[test]
fn a_removal_packet_of_another_client_is_not_admitted() {
    let (mut handle, events) = bound_runtime(Some(ATTEMPT_TOKEN));
    send_packet(&mut handle, Some(SELF_ID), production_add_packet(7));
    drain(events, &mut handle);
    let before = handle.shared.counters.entity_packet_admission;

    assert_eq!(handle.shared.admit_removal_packet(OWNER + 1, ATTEMPT_TOKEN), None);
    assert_eq!(handle.shared.admit_removal_packet(OWNER, ATTEMPT_TOKEN + 1), None);
    assert_eq!(handle.shared.counters.entity_packet_admission, before);

    let packet = handle.shared.admit_removal_packet(OWNER, ATTEMPT_TOKEN).expect("own packet");
    assert_eq!(packet.admission, before);
    assert_eq!(handle.shared.counters.entity_packet_admission, before + 1);

    let stale = RemovalPacket { owner: OWNER + 1, ..packet };
    handle.shared.remove_packet_entity(stale, Some(SELF_ID), 0, 7, AT);
    assert!(received(events, &mut handle).is_none());
    handle.shared.remove_packet_entity(packet, None, 0, 7, AT);
    assert!(received(events, &mut handle).is_none());
    handle.shared.remove_packet_entity(packet, Some(SELF_ID), 0, 7, AT);
    assert!(received(events, &mut handle).is_some());
}

fn rounded(number: f64) -> f64 {
    f64::from(number as f32)
}

#[test]
fn published_angles_and_sizes_have_single_precision() {
    let (mut handle, events) = bound_runtime(Some(ATTEMPT_TOKEN));
    let source = handle.observation_source();
    let mut added = snapshot(1, 7, 1.0 / 3.0);
    added.yaw = double(0.1);
    added.pitch = double(-20.3);
    added.head_yaw = Some(double(123.456));
    added.width = double(0.6);
    added.height = double(1.8);
    assert!(handle.shared.emit_entity_input(OWNER, 1, spawn(1, 1, added), AT));

    let listed = source.list_tracked_entities(&handle.shared).unwrap();
    let event = received(events, &mut handle).expect("spawn");
    for shown in [&listed[0], &spawned(&event)] {
        assert_eq!(value(shown.yaw), rounded(0.1));
        assert_eq!(value(shown.pitch), rounded(-20.3));
        assert_eq!(shown.head_yaw.map(value), Some(rounded(123.456)));
        assert_eq!(value(shown.width), rounded(0.6));
        assert_eq!(value(shown.height), rounded(1.8));
        assert_eq!(value(shown.position.x), 1.0 / 3.0, "positions keep their precision");
    }

    let kept = handle.shared.producer.cache.shadow(EntityIdentity::new(1, 7)).expect("known");
    assert_eq!(value(kept.yaw), 0.1, "what later moves build on is not rounded");
    assert_eq!(value(kept.width), 0.6);
}

/// Turns the head to a quarter.
fn turn_head(shared: &SharedRuntime, admission: u64) -> EntityProducerInput {
    let entity = EntityIdentity::new(1, 7);
    let before = shared.producer.cache.shadow(entity).expect("known entity");
    EntityProducerInput::Move {
        token: token(1, admission),
        patch: EntityMovePatch::rotate_head(entity, 64),
        computed: MoveArithmetic {
            position: before.position,
            velocity: before.velocity,
            yaw: before.yaw,
            pitch: before.pitch,
            head_yaw: double(turn_degrees(64)),
        },
    }
}

#[test]
fn observation_source_reads_rotate_and_motion_post_state_without_motion_envelope() {
    let (mut handle, events) = bound_runtime(None);
    let source = handle.observation_source();

    assert!(handle.shared.emit_entity_input(OWNER, 1, spawn(1, 1, snapshot(1, 7, 1.0)), AT));
    received(events, &mut handle).expect("spawn");
    let turn = turn_head(&handle.shared, 2);
    assert!(handle.shared.emit_entity_input(OWNER, 1, turn, AT));
    assert_eq!(
        source.list_tracked_entities(&handle.shared).unwrap()[0].head_yaw.map(value),
        Some(90.0)
    );
    received(events, &mut handle).expect("rotate envelope");

    assert!(handle.shared.emit_entity_motion_residual(
        OWNER,
        1,
        EntityProducerToken::new(1, "set-motion:1".to_owned()),
        EntityIdentity::new(1, 7),
        vec3(7.0, 8.0, 9.0),
    ));
    let motion = source.list_tracked_entities(&handle.shared).unwrap();
    assert_eq!(value(motion[0].velocity.x), 7.0);
    assert!(received(events, &mut handle).is_none(), "motion has no entity envelope");

    assert!(handle.shared.begin_connection_attempt(AT));
    assert_eq!(
        source.list_tracked_entities(&handle.shared),
        Err(BackendError::StaleEpoch { bound_epoch: 1, current_epoch: 2 })
    );
}

#[test]
fn entity_callback_reads_spawn_move_rotate_remove_post_state_immediately() {
    let (mut handle, _events) = bound_runtime(None);
    let source = handle.observation_source();
    let subscription =
        source.subscribe_listener(&mut handle.shared).expect("callback subscription");
    let mut states = Vec::new();

    assert!(handle.shared.emit_entity_input(OWNER, 1, spawn(1, 21, snapshot(1, 7, 10.0)), AT));
    perform_callbacks(&mut handle, &source, subscription, &mut states);
    let step = step_east(&handle.shared, 1, 22, 7, false);
    assert!(handle.shared.emit_entity_input(OWNER, 1, step, AT));
    perform_callbacks(&mut handle, &source, subscription, &mut states);
    let turn = turn_head(&handle.shared, 23);
    assert!(handle.shared.emit_entity_input(OWNER, 1, turn, AT));
    perform_callbacks(&mut handle, &source, subscription, &mut states);
    assert!(handle.shared.emit_entity_input(OWNER, 1, remove(1, 24, 7), AT));
    perform_callbacks(&mut handle, &source, subscription, &mut states);

    assert_eq!(states.len(), 4);
    assert_eq!(states[0][0].entity_key(), "1:7");
    assert_eq!(value(states[0][0].position.x), 10.0);
    assert_eq!(value(states[1][0].position.x), 11.0);
    assert_eq!(states[2][0].head_yaw.map(value), Some(90.0));
    assert!(states[3].is_empty());
}

#[test]
fn refresh_merge_only_preserves_explicit_residuals_and_ecs_fields_advance() {
    let entity = EntityIdentity::new(4, 7);
    let captured = NormalizedEntitySnapshot {
        identity: entity,
        entity_type: "ecs:dark_oak_chest_boat".to_owned(),
        name: None,
        username: None,
        uuid: Some("ecs-uuid".to_owned()),
        position: vec3(99.0, 64.0, 4.0),
        velocity: vec3(6.0, 0.5, 0.75),
        yaw: double(0.125),
        pitch: double(-0.25),
        head_yaw: None,
        width: double(0.625),
        height: double(1.875),
        on_ground: true,
        pose: Some(EntityPose::Named("crouching".to_owned())),
        held_item_name: None,
        equipment: Arc::new(Vec::new()),
        valid: true,
    };
    let residuals = vec![EntityObservationResidual {
        entity,
        head_yaw: Some(double(135.0)),
        velocity: Some(vec3(8.0, 9.0, 10.0)),
    }];
    let (merged, residuals) =
        merge_refreshed_tracked_entities(vec![Arc::new(captured.clone())], &residuals, 4);
    assert_eq!(value(merged[0].position.x), 99.0);
    assert_eq!(merged[0].entity_type, "ecs:dark_oak_chest_boat");
    assert_eq!(merged[0].uuid.as_deref(), Some("ecs-uuid"));
    assert_eq!(merged[0].pose, Some(EntityPose::Named("crouching".to_owned())));
    assert!(merged[0].on_ground);
    assert_eq!(merged[0].head_yaw.map(value), Some(135.0));
    assert_eq!(value(merged[0].velocity.x), 8.0);

    let (unmerged, _) =
        merge_refreshed_tracked_entities(vec![Arc::new(captured.clone())], &Vec::new(), 4);
    assert_eq!(*unmerged[0], captured);

    let mut handle = runtime();
    assert!(handle.shared.begin_connection_attempt(AT));
    assert_eq!(
        handle.shared.consume_attempt_for_transport_init_and_bind_with_token(OWNER, None, AT),
        Some(1)
    );
    handle.shared.observation.tracked_entities.push(Arc::new(captured));
    handle.shared.observation.entity_residuals = residuals;
    assert!(handle.shared.reset_entity_scope_for_owner_at_epoch_with_dimension_and_light(
        OWNER, 1, None, None, AT,
    ));
    assert!(handle.shared.observation.tracked_entities.is_empty());
    assert!(handle.shared.observation.entity_residuals.is_empty());
}

#[test]
fn remove_then_refresh_with_membership_excluded_capture_does_not_revive() {
    let (mut handle, events) = bound_runtime(None);
    let source = handle.observation_source();
    let identity = EntityIdentity::new(1, 7);

    assert!(handle.shared.emit_entity_input(OWNER, 1, spawn(1, 42, snapshot(1, 7, 10.0)), AT));
    received(events, &mut handle).expect("spawn");
    assert!(handle.shared.emit_entity_motion_residual(
        OWNER,
        1,
        EntityProducerToken::new(1, "capture-remove:motion".to_owned()),
        identity,
        vec3(3.0, 4.0, 5.0),
    ));
    assert!(handle.shared.emit_entity_input(OWNER, 1, remove(1, 43, 7), AT));
    received(events, &mut handle).expect("remove");
    assert!(source.list_tracked_entities(&handle.shared).unwrap().is_empty());
    assert!(handle.shared.observation.tracked_entities.is_empty());
    assert!(handle.shared.observation.entity_residuals.is_empty());

    // A capture without the entity revives neither it nor what was kept of it.
    let residuals = vec![EntityObservationResidual {
        entity: identity,
        head_yaw: None,
        velocity: Some(vec3(3.0, 4.0, 5.0)),
    }];
    let (refreshed, residuals) = merge_refreshed_tracked_entities(Vec::new(), &residuals, 1);
    assert!(refreshed.is_empty());
    assert!(residuals.is_empty());
    assert!(source.list_tracked_entities(&handle.shared).unwrap().is_empty());
}

#[test]
fn set_motion_then_teleport_clears_velocity_before_refresh_and_spawn_reuse() {
    let (mut handle, events) = bound_runtime(None);
    let identity = EntityIdentity::new(1, 7);

    assert!(handle.shared.emit_entity_input(OWNER, 1, spawn(1, 31, snapshot(1, 7, 1.0)), AT));
    received(events, &mut handle).expect("spawn");
    assert!(handle.shared.emit_entity_motion_residual(
        OWNER,
        1,
        EntityProducerToken::new(1, "set-motion:v1".to_owned()),
        identity,
        vec3(1.0, 2.0, 3.0),
    ));
    assert_eq!(
        handle.shared.observation.entity_residuals[0].velocity,
        Some(vec3(1.0, 2.0, 3.0))
    );

    assert!(handle.shared.emit_entity_input_with_velocity_residual(
        OWNER,
        1,
        EntityProducerInput::Move {
            token: token(1, 32),
            patch: EntityMovePatch::teleport(
                identity,
                vec3(20.0, 65.0, 2.0),
                WideLook { yaw: double(0.0), pitch: double(0.0) },
                EVERY_AXIS_ABSOLUTE,
                false,
                false,
                vec3(4.0, 5.0, 6.0),
                EVERY_AXIS_ABSOLUTE,
                false,
                true,
            ),
            computed: MoveArithmetic {
                position: vec3(20.0, 65.0, 2.0),
                velocity: vec3(4.0, 5.0, 6.0),
                yaw: double(0.0),
                pitch: double(0.0),
                head_yaw: double(0.0),
            },
        },
        EntityResidualAction::Clear,
        AT,
    ));
    received(events, &mut handle).expect("teleport");
    assert_eq!(value(handle.shared.observation.tracked_entities[0].velocity.x), 4.0);
    assert!(!handle.shared.observation.entity_residuals.iter().any(|residual| {
        residual.entity.key() == "1:7" && residual.velocity == Some(vec3(1.0, 2.0, 3.0))
    }));
    let mut captured = (*handle.shared.observation.tracked_entities[0]).clone();
    captured.velocity.x = double(9.0);
    let (refreshed, _) = merge_refreshed_tracked_entities(
        vec![Arc::new(captured)],
        &handle.shared.observation.entity_residuals,
        1,
    );
    assert_eq!(value(refreshed[0].velocity.x), 9.0);

    assert!(handle.shared.emit_entity_motion_residual(
        OWNER,
        1,
        EntityProducerToken::new(1, "set-motion:reuse-old".to_owned()),
        identity,
        vec3(7.0, 8.0, 9.0),
    ));
    let mut reused = snapshot(1, 7, 40.0);
    reused.velocity = vec3(11.0, 12.0, 13.0);
    assert!(handle.shared.emit_entity_input(OWNER, 1, spawn(1, 33, reused), AT));
    assert_eq!(value(handle.shared.observation.tracked_entities[0].velocity.x), 11.0);
    assert!(!handle.shared.observation.entity_residuals.iter().any(|residual| {
        residual.entity.key() == "1:7" && residual.velocity == Some(vec3(7.0, 8.0, 9.0))
    }));
}

#[test]
fn residuals_are_bounded_and_refresh_drops_orphans() {
    let mut observation = ObservationState::new();
    for id in 0..=ENTITY_OBSERVATION_RESIDUAL_CAPACITY {
        observation.record_residual(
            EntityIdentity::new(1, id as i32),
            None,
            Some(vec3(id as f64, 0.0, 0.0)),
            EntityResidualAction::Update,
        );
    }
    assert_eq!(observation.entity_residuals.len(), ENTITY_OBSERVATION_RESIDUAL_CAPACITY);
    assert!(!observation
        .entity_residuals
        .iter()
        .any(|residual| residual.entity.key() == "1:0"));
    assert!(observation
        .entity_residuals
        .iter()
        .any(|residual| residual.entity.key() == "1:1024"));

    let residuals = vec![
        EntityObservationResidual {
            entity: EntityIdentity::new(1, 7),
            head_yaw: None,
            velocity: Some(vec3(1.0, 0.0, 0.0)),
        },
        EntityObservationResidual {
            entity: EntityIdentity::new(1, 8),
            head_yaw: None,
            velocity: Some(vec3(2.0, 0.0, 0.0)),
        },
        EntityObservationResidual {
            entity: EntityIdentity::new(2, 7),
            head_yaw: None,
            velocity: Some(vec3(3.0, 0.0, 0.0)),
        },
    ];
    let (_, residuals) =
        merge_refreshed_tracked_entities(vec![Arc::new(snapshot(1, 7, 5.0))], &residuals, 1);
    assert_eq!(residuals.len(), 1);
    assert_eq!(residuals[0].entity.key(), "1:7");
}

#[test]
fn same_owner_epoch_reset_invalidates_an_apply_waiting_to_publish() {
    let (mut handle, events) = bound_runtime(None);

    handle.shared.observation.world = Some(3);
    handle.shared.observation.snapshot = Some(Arc::new(scope_snapshot(1)));
    handle.shared.observation.source = Some(FactSource::ServerObserved);
    handle.shared.observation.tracked_entities.push(Arc::new(snapshot(1, 6, 0.0)));
    handle.shared.observation.entity_residuals.push(EntityObservationResidual {
        entity: EntityIdentity::new(1, 6),
        head_yaw: None,
        velocity: Some(vec3(1.0, 0.0, 0.0)),
    });

    let (taken, generation) = handle
        .shared
        .apply_entity_input_for_owner_with_generation(
            OWNER,
            1,
            spawn(1, 41, snapshot(1, 7, 1.0)),
        )
        .expect("input");

    assert!(handle.shared.reset_entity_scope_for_owner_at_epoch_with_dimension_and_light(
        OWNER, 1, None, None, AT,
    ));
    assert!(!handle.shared.publish_entity_event(
        OWNER,
        1,
        generation,
        taken,
        EntityResidualAction::Retain,
        AT,
    ));
    assert!(received(events, &mut handle).is_none(), "reset must suppress stale envelope");
    assert!(handle.shared.observation.world.is_none());
    assert!(handle.shared.observation.snapshot.is_none());
    assert!(handle.shared.observation.source.is_none());
    assert!(handle.shared.observation.tracked_entities.is_empty());
    assert!(handle.shared.observation.entity_residuals.is_empty());
}

#[test]
fn a_rotation_beside_a_step_takes_both() {
    let (mut handle, events) = bound_runtime(Some(ATTEMPT_TOKEN));
    send_packet(&mut handle, Some(SELF_ID), production_add_packet(7));
    received(events, &mut handle).expect("spawn");
    send_packet(
        &mut handle,
        Some(SELF_ID),
        GamePacket::Entity(EntityPacket::MovePosRot {
            id: 7,
            delta: AxisSteps { x: 4096, y: 0, z: 0 },
            look: CompactLook { yaw: 64, pitch: -16 },
            on_ground: true,
            computed: MoveArithmetic {
                position: vec3(11.0, 64.0, 2.0),
                velocity: vec3(0.25, 0.0, -0.5),
                yaw: double(turn_degrees(64)),
                pitch: double(turn_degrees(-16)),
                head_yaw: double(0.0),
            },
        }),
    );
    let event = received(events, &mut handle).expect("move");
    let entity = moved(&event);
    assert_eq!(value(entity.position.x), 11.0);
    assert_eq!(value(entity.yaw), 90.0);
    assert_eq!(value(entity.pitch), -22.5);
    assert!(entity.on_ground);
    assert_eq!(entity.head_yaw.map(value), Some(45.0));
}

#[test]
fn another_attempts_packets_change_nothing() {
    let (mut handle, events) = bound_runtime(Some(ATTEMPT_TOKEN));
    let source = handle.observation_source();
    handle.shared.produce_entity_packet_event(
        OWNER,
        ATTEMPT_TOKEN + 1,
        Some(SELF_ID),
        production_add_packet(7),
        AT,
    );
    assert!(source.list_tracked_entities(&handle.shared).unwrap().is_empty());
    assert!(received(events, &mut handle).is_none());
}
