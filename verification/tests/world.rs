use std::sync::Arc;

use mineintent_backend::armor::{
    armor_terms, effective_modifiers, AttributeModifier, ModifierOperation,
};
use mineintent_backend::config::RunConfig;
use mineintent_backend::contract::{
    AttemptId, BackendError, BackendEventEnvelope, BackendEventKind, BackendEventPayload,
    FactSource, FailureMessage, Readiness, SnapshotGroup, SoundEvent,
};
use mineintent_backend::driver::SpawnFollowUp;
use mineintent_backend::entity_events::{
    EntityEquipment, EntityIdentity, NormalizedEntitySnapshot,
};
use mineintent_backend::frame::{armor_of, AttributeReading};
use mineintent_backend::handle::{RuntimeEventReceiver, RuntimeHandle};
use mineintent_backend::light::{
    decode_light_layer, floor_div_16, floor_mod_16, LightCache, LightSectionGeometry,
    LightUpdateData,
};
use mineintent_backend::number::{Double, Single, Vec3Value};
use mineintent_backend::observation::{
    after_viewport_retry, backend_error_from_directed, contract_entity_snapshot,
    DirectedViewportError, ViewportLoop, ViewportStep, WorldRead,
};
use mineintent_backend::producers::{
    canonical_sound_packet, is_admitted_non_local_entity, prove_has_skylight, DimensionTag,
    GamePacket,
};
use mineintent_backend::snapshot::{
    read_block_from_world, BlockBoundingBox, BlockPosition, BlockReadResult, CollisionBox,
    ExperienceSnapshot, InventorySnapshot, MinecraftSnapshotV1, ProtocolBlockSnapshot,
    SelfSnapshot, StoredBlock, WorldSnapshot,
};
use mineintent_backend::state::ClientRef;
use mineintent_backend::time::UtcInstant;
use mineintent_backend::tracking::{list_in_order, EntityResidualAction, ObservationState};

const AT: UtcInstant = UtcInstant { seconds: 1_700_000_000, nanos: 0 };
const CLIENT: ClientRef = ClientRef { entity: 5, attempt_token: Some(41) };

fn single(value: f32) -> Single {
    Single { bits: value.to_bits() }
}

fn vec3(x: f64, y: f64, z: f64) -> Vec3Value {
    Vec3Value {
        x: Double { bits: x.to_bits() },
        y: Double { bits: y.to_bits() },
        z: Double { bits: z.to_bits() },
    }
}

fn snapshot(epoch: u64, revision: u64, dimension: &str) -> MinecraftSnapshotV1 {
    MinecraftSnapshotV1 {
        snapshot_revision: revision,
        lifecycle_revision: 1,
        captured_at: AT,
        process_session_id: "session".to_owned(),
        connection_epoch: epoch,
        connection_attempt_id: AttemptId { epoch },
        world: WorldSnapshot {
            world_id: "world".to_owned(),
            dimension: dimension.to_owned(),
            minecraft_version: "26.1.2".to_owned(),
            protocol_version: 775,
            game_mode: "survival".to_owned(),
            min_y: -64,
            height: 384,
        },
        self_snapshot: SelfSnapshot {
            entity_key: "self".to_owned(),
            username: "Bot".to_owned(),
            position: vec3(0.5, 64.0, 0.5),
            velocity: vec3(0.0, 0.0, 0.0),
            yaw: single(0.0),
            pitch: single(0.0),
            on_ground: true,
            alive: true,
            health: single(20.0),
            food: 20,
            food_saturation: single(5.0),
            experience: ExperienceSnapshot { level: 0, progress: single(0.0), total: 0 },
        },
        inventory: InventorySnapshot { selected_hotbar_slot: 0, slots: Vec::new() },
        tracked_players: Vec::new(),
    }
}

fn runtime_with(config: RunConfig) -> (RuntimeHandle, RuntimeEventReceiver) {
    let mut handle = RuntimeHandle::new(config, "session".to_owned(), 7);
    let events = handle.subscribe();
    (handle, events)
}

fn runtime() -> (RuntimeHandle, RuntimeEventReceiver) {
    runtime_with(RunConfig::default())
}

/// A run whose first attempt belongs to `CLIENT`.
fn connected() -> (RuntimeHandle, RuntimeEventReceiver) {
    let (mut handle, events) = runtime();
    let config = RunConfig::default();
    assert_eq!(handle.shared.start_run(&config, AT), Ok(true));
    assert!(handle.shared.admit_canonical_join_source(41));
    assert!(handle.shared.admit_client(CLIENT, AT));
    drain(events, &mut handle);
    handle.shared.take_effects();
    (handle, events)
}

fn spawn_player(handle: &mut RuntimeHandle) -> SpawnFollowUp {
    handle.shared.observe_login(CLIENT, Some("minecraft:overworld".to_owned()), AT);
    let was_dead = handle.shared.admit_spawn(CLIENT, 3).expect("spawn");
    let published = Arc::new(snapshot(handle.connection_epoch(), 1, "minecraft:overworld"));
    handle.shared.observation.snapshot = Some(published.clone());
    handle.shared.complete_spawn(Some(published), was_dead, AT)
}

/// A run whose player stands in the world.
fn ready() -> (RuntimeHandle, RuntimeEventReceiver) {
    let (mut handle, events) = connected();
    spawn_player(&mut handle);
    drain(events, &mut handle);
    handle.shared.take_effects();
    (handle, events)
}

fn drain(
    events: RuntimeEventReceiver,
    handle: &mut RuntimeHandle,
) -> Vec<Arc<BackendEventEnvelope>> {
    std::iter::from_fn(|| events.try_recv(&mut handle.shared)).collect()
}

fn double(value: f64) -> Double {
    Double { bits: value.to_bits() }
}

fn entity(epoch: u64, id: i32) -> NormalizedEntitySnapshot {
    NormalizedEntitySnapshot {
        identity: EntityIdentity::new(epoch, id),
        entity_type: "minecraft:pig".to_owned(),
        uuid: None,
        name: None,
        username: None,
        position: vec3(0.0, 64.0, 0.0),
        velocity: vec3(0.0, 0.0, 0.0),
        yaw: double(0.0),
        pitch: double(0.0),
        head_yaw: None,
        width: double(0.9),
        height: double(0.9),
        on_ground: true,
        pose: None,
        held_item_name: None,
        equipment: Arc::new(Vec::new()),
        valid: true,
    }
}

fn layer_update(
    geometry: LightSectionGeometry,
    section_y: i32,
    sky: Option<u8>,
    block: Option<u8>,
) -> LightUpdateData {
    let section = geometry.index_for_section_y(section_y).expect("section");
    let mask = |present: bool| {
        let mut mask = vec![false; geometry.light_section_count];
        mask[section] = present;
        mask
    };
    let layer = |value: Option<u8>| {
        value.map_or(Vec::new(), |level| vec![vec![level * 16 + level; 2048]])
    };
    LightUpdateData {
        sky_mask: mask(sky.is_some()),
        empty_sky_mask: Vec::new(),
        sky_updates: layer(sky),
        block_mask: mask(block.is_some()),
        empty_block_mask: Vec::new(),
        block_updates: layer(block),
    }
}

fn geometry() -> LightSectionGeometry {
    LightSectionGeometry::from_world(-64, 384).expect("geometry")
}

fn lit_cache(has_skylight: Option<bool>, sky: Option<u8>, block: Option<u8>) -> LightCache {
    let mut cache = LightCache::new();
    cache.reset_scope(1, 2, Some("d".to_owned()), has_skylight);
    assert!(cache.apply_packet(
        1,
        2,
        "d".to_owned(),
        has_skylight,
        geometry(),
        0,
        -1,
        &layer_update(geometry(), 4, sky, block),
        true,
    ));
    cache
}

fn light_at(cache: &LightCache, x: f64, y: f64, z: f64) -> Option<u8> {
    cache.value_at(&vec3(x, y, z), 1, 2, &"d".to_owned())
}

#[test]
fn a_world_has_light_above_and_below() {
    let geometry = geometry();
    assert_eq!(geometry.min_light_section, -5);
    assert_eq!(geometry.light_section_count, 26);
    assert_eq!(geometry.index_for_section_y(-5), Some(0));
    assert_eq!(geometry.index_for_section_y(20), Some(25));
    assert_eq!(geometry.index_for_section_y(21), None);
    assert_eq!(geometry.index_for_section_y(-6), None);
    assert_eq!(LightSectionGeometry::from_world(-63, 384), None);
}

#[test]
fn sections_are_floors() {
    assert_eq!((floor_div_16(31), floor_mod_16(31)), (1, 15));
    assert_eq!((floor_div_16(-1), floor_mod_16(-1)), (-1, 15));
    assert_eq!((floor_div_16(-16), floor_mod_16(-16)), (-1, 0));
    assert_eq!((floor_div_16(i32::MIN), floor_mod_16(i32::MIN)), (-134_217_728, 0));
}

#[test]
fn a_layer_holds_two_values_in_a_byte() {
    let mut bytes = vec![0u8; 2048];
    bytes[0] = 0x7a;
    let layer = decode_light_layer(&bytes).expect("layer");
    assert_eq!(layer.len(), 4096);
    assert_eq!(layer[0], 0xa);
    assert_eq!(layer[1], 0x7);
    assert!(layer.iter().all(|level| *level <= 15));
    assert_eq!(decode_light_layer(&vec![0u8; 2047]), None);
    let mut other = bytes.clone();
    other[2047] = 1;
    assert_ne!(decode_light_layer(&bytes), decode_light_layer(&other));
}

#[test]
fn the_brighter_light_counts() {
    assert_eq!(light_at(&lit_cache(Some(true), Some(3), Some(9)), 0.5, 64.0, -0.5), Some(9));
    assert_eq!(light_at(&lit_cache(Some(true), Some(12), Some(9)), 0.5, 64.0, -0.5), Some(12));
    assert_eq!(light_at(&lit_cache(Some(true), None, Some(9)), 0.5, 64.0, -0.5), None);
    assert_eq!(light_at(&lit_cache(Some(true), None, Some(15)), 0.5, 64.0, -0.5), Some(15));
    assert_eq!(light_at(&lit_cache(Some(false), None, Some(9)), 0.5, 64.0, -0.5), Some(9));
}

#[test]
fn light_elsewhere_is_unknown() {
    let cache = lit_cache(Some(true), Some(3), Some(9));
    assert_eq!(light_at(&cache, 0.5, 64.0, 0.5), None);
    assert_eq!(light_at(&cache, 0.5, 63.9, -0.5), None);
    assert_eq!(light_at(&cache, 0.5, 100_000.0, -0.5), None);
    assert_eq!(light_at(&cache, f64::NAN, 64.0, -0.5), None);
    assert_eq!(cache.value_at(&vec3(0.5, 64.0, -0.5), 1, 3, &"d".to_owned()), None);
    assert_eq!(cache.value_at(&vec3(0.5, 64.0, -0.5), 2, 2, &"d".to_owned()), None);
    assert_eq!(cache.value_at(&vec3(0.5, 64.0, -0.5), 1, 2, &"e".to_owned()), None);
}

#[test]
fn a_packet_touches_its_own_chunk_alone() {
    let mut cache = lit_cache(Some(true), Some(3), Some(9));
    assert!(cache.apply_packet(
        1,
        2,
        "d".to_owned(),
        Some(true),
        geometry(),
        1,
        -1,
        &layer_update(geometry(), 4, Some(1), Some(2)),
        true,
    ));
    assert_eq!(light_at(&cache, 0.5, 64.0, -0.5), Some(9));
    assert_eq!(light_at(&cache, 16.5, 64.0, -0.5), Some(2));
    assert!(cache.remove_chunk(1, 2, &"d".to_owned(), 0, -1));
    assert_eq!(light_at(&cache, 0.5, 64.0, -0.5), None);
    assert_eq!(light_at(&cache, 16.5, 64.0, -0.5), Some(2));
    assert!(cache.context_matches(1, 2, &"d".to_owned()));
    cache.reset_scope(1, 3, Some("d".to_owned()), Some(false));
    assert_eq!(light_at(&cache, 16.5, 64.0, -0.5), None);
    assert_eq!(cache.has_skylight(), Some(false));
    cache.clear();
    assert_eq!(cache.has_skylight(), None);
}

#[test]
fn an_empty_mask_darkens_a_section() {
    let mut cache = lit_cache(Some(true), Some(3), Some(9));
    let section = geometry().index_for_section_y(4).expect("section");
    let mut mask = vec![false; geometry().light_section_count];
    mask[section] = true;
    assert!(cache.apply_packet(
        1,
        2,
        "d".to_owned(),
        Some(true),
        geometry(),
        0,
        -1,
        &LightUpdateData {
            sky_mask: Vec::new(),
            empty_sky_mask: Vec::new(),
            sky_updates: Vec::new(),
            block_mask: Vec::new(),
            empty_block_mask: mask,
            block_updates: Vec::new(),
        },
        false,
    ));
    assert_eq!(light_at(&cache, 0.5, 64.0, -0.5), Some(3));
}

fn modifier(id: &str, amount: f64, operation: ModifierOperation) -> AttributeModifier {
    AttributeModifier { id: id.to_owned(), amount: double(amount), operation }
}

#[test]
fn the_last_modifier_of_a_name_counts() {
    let modifiers = vec![
        modifier("a", 1.0, ModifierOperation::AddValue),
        modifier("b", 2.0, ModifierOperation::AddMultipliedBase),
        modifier("a", 3.0, ModifierOperation::AddMultipliedTotal),
    ];
    let kept = effective_modifiers(&modifiers);
    assert_eq!(kept.len(), 2);
    assert!(kept.contains(&1));
    assert!(kept.contains(&2));
    let terms = armor_terms(double(0.5), &modifiers).expect("terms");
    assert_eq!(terms.added, Vec::<Double>::new());
    assert_eq!(terms.of_base, vec![double(2.0)]);
    assert_eq!(terms.of_total, vec![double(3.0)]);
}

#[test]
fn an_attribute_without_a_number_has_no_value() {
    assert_eq!(armor_terms(double(f64::NAN), &Vec::new()), None);
    assert_eq!(
        armor_terms(
            double(1.0),
            &vec![modifier("a", f64::INFINITY, ModifierOperation::AddValue)]
        ),
        None
    );
    // A modifier that does not count may hold anything.
    assert!(armor_terms(
        double(1.0),
        &vec![
            modifier("a", f64::INFINITY, ModifierOperation::AddValue),
            modifier("a", 2.0, ModifierOperation::AddValue),
        ]
    )
    .is_some());
}

#[test]
fn armor_is_read_from_the_attributes() {
    let reading = |is_armor: bool, value: Option<u8>| AttributeReading { is_armor, value };
    assert_eq!(armor_of(&vec![reading(false, Some(3))]), None);
    assert_eq!(armor_of(&vec![reading(true, Some(7)), reading(false, Some(3))]), Some(Some(7)));
    assert_eq!(armor_of(&vec![reading(true, None)]), Some(None));
}

#[test]
fn entities_are_listed_in_the_order_of_their_keys() {
    let list: Vec<Arc<NormalizedEntitySnapshot>> =
        [9, 10, 100, 2].iter().map(|id| Arc::new(entity(1, *id))).collect();
    let keys: Vec<String> =
        list_in_order(list).iter().map(|entity| entity.entity_key()).collect();
    assert_eq!(keys, vec!["1:10", "1:100", "1:2", "1:9"]);
}

#[test]
fn an_entity_is_replaced_where_it_is_listed() {
    let mut observation = ObservationState::new();
    observation.upsert_entity_observation(Arc::new(entity(1, 7)));
    observation.upsert_entity_observation(Arc::new(entity(1, 8)));
    let mut moved = entity(1, 7);
    moved.position.x = double(5.0);
    observation.upsert_entity_observation(Arc::new(moved));
    assert_eq!(observation.tracked_entities.len(), 2);
    assert_eq!(observation.tracked_entities[0].position.x, double(5.0));
    observation.record_residual(
        EntityIdentity::new(1, 7),
        Some(double(1.0)),
        None,
        EntityResidualAction::Update,
    );
    assert_eq!(observation.entity_residuals.len(), 1);
    observation.remove_entity(EntityIdentity::new(1, 7));
    assert_eq!(observation.tracked_entities.len(), 1);
    assert!(observation.entity_residuals.is_empty());
    let generation = observation.generation;
    observation.bump_generation();
    assert_eq!(observation.generation, generation + 1);
    observation.clear();
    assert!(observation.tracked_entities.is_empty());
}

fn whole_cell() -> CollisionBox {
    CollisionBox { min: vec3(0.0, 0.0, 0.0), max: vec3(1.0, 1.0, 1.0) }
}

fn stored() -> StoredBlock {
    StoredBlock {
        name: "minecraft:oak_log".to_owned(),
        state_id: 137,
        properties: vec![("axis".to_owned(), "y".to_owned())],
        collision_shapes: vec![whole_cell()],
        transparent_hint: false,
        bounding_box: BlockBoundingBox::Block,
    }
}

fn block(y: i32) -> ProtocolBlockSnapshot {
    ProtocolBlockSnapshot {
        position: BlockPosition { x: 1, y, z: 2 },
        name: "minecraft:oak_log".to_owned(),
        state_id: 137,
        properties: vec![("axis".to_owned(), "y".to_owned())],
        collision_shapes: vec![whole_cell()],
        transparent_hint: false,
        bounding_box: BlockBoundingBox::Block,
    }
}

#[test]
fn blocks_are_read_inside_the_world() {
    let at = |y: i32| BlockPosition { x: 1, y, z: 2 };
    assert_eq!(
        read_block_from_world(at(-64), -64, 384, Some(stored())),
        BlockReadResult::Loaded { block: block(-64) }
    );
    assert_eq!(read_block_from_world(at(319), -64, 384, None), BlockReadResult::Unloaded);
    assert_eq!(
        read_block_from_world(at(320), -64, 384, Some(stored())),
        BlockReadResult::OutOfWorld
    );
    assert_eq!(read_block_from_world(at(-65), -64, 384, None), BlockReadResult::OutOfWorld);
}

#[test]
fn a_source_reads_blocks_of_its_world() {
    let (mut handle, _events) = ready();
    let source = handle.observation_source();
    let read = |stored| WorldRead { min_y: -64, height: 384, stored };
    let at = BlockPosition { x: 1, y: 64, z: 2 };
    assert_eq!(
        source.read_block(&handle.shared, at, read(Some(stored()))),
        Ok(BlockReadResult::Loaded { block: block(64) })
    );
    handle.shared.observation.clear_world();
    assert_eq!(
        source.read_block(&handle.shared, at, read(Some(stored()))),
        Ok(BlockReadResult::Unloaded)
    );
}

#[test]
fn a_refresh_publishes_what_it_captured() {
    let (mut handle, events) = ready();
    let stamp = handle.shared.begin_refresh();
    assert_eq!(stamp.connection_epoch, 1);
    assert_eq!(stamp.process_session_id, "session");
    let candidate = Arc::new(snapshot(1, stamp.next_revision, "minecraft:overworld"));
    let published = handle
        .shared
        .finish_refresh(
            &stamp,
            candidate,
            vec![Arc::new(entity(1, 7))],
            false,
            false,
            FactSource::ServerObserved,
        )
        .expect("published");
    assert_eq!(published.snapshot_revision, stamp.next_revision);
    assert_eq!(handle.snapshot().expect("stored"), published);
    assert_eq!(handle.snapshot_source(), Some(FactSource::ServerObserved));
    handle.shared.emit_snapshot(&published, FactSource::ServerObserved, AT);
    let told = drain(events, &mut handle);
    assert_eq!(told[0].kind(), BackendEventKind::SnapshotChanged);
    assert_eq!(
        told[0].payload,
        BackendEventPayload::SnapshotChanged {
            group: SnapshotGroup::World,
            snapshot_revision: published.snapshot_revision,
        }
    );
    assert_eq!(SnapshotGroup::World.text(), "world");
    let source = handle.observation_source();
    assert_eq!(source.list_tracked_entities(&handle.shared).expect("list").len(), 1);
    assert_eq!(source.list_tracked_players(&handle.shared).expect("players").len(), 0);
    assert_eq!(
        source.snapshot_source(&handle.shared),
        Ok(Some(FactSource::ServerObserved))
    );
}

#[test]
fn a_late_capture_is_dropped() {
    let (mut handle, _events) = ready();
    let stamp = handle.shared.begin_refresh();
    assert!(handle.shared.reset_entity_scope_for_owner_at_epoch_with_dimension_and_light(
        5, 1, None, None, AT,
    ) || handle.shared.reset_entity_scope_for_owner(5));
    handle.shared.observation.bump_generation();
    let candidate = Arc::new(snapshot(1, stamp.next_revision, "minecraft:overworld"));
    assert!(handle
        .shared
        .finish_refresh(&stamp, candidate, Vec::new(), false, true, FactSource::ServerObserved)
        .is_none());
}

#[test]
fn an_unchanged_state_is_not_published_again() {
    let (mut handle, _events) = ready();
    let stamp = handle.shared.begin_refresh();
    let candidate = || Arc::new(snapshot(1, stamp.next_revision, "minecraft:overworld"));
    assert!(handle
        .shared
        .finish_refresh(
            &stamp,
            candidate(),
            Vec::new(),
            true,
            false,
            FactSource::ServerObserved
        )
        .is_none());
}

#[test]
fn a_viewport_is_of_one_moment() {
    let (mut handle, _events) = ready();
    handle.shared.observation.source = Some(FactSource::ServerObserved);
    let source = handle.observation_source();
    let ticket = source.begin_viewport_read(&handle.shared).expect("ticket");
    let capture = match source.capture_viewport(&handle.shared, ticket) {
        Ok(ViewportStep::Ready(capture)) => capture,
        other => panic!("expected a capture, got {other:?}"),
    };
    assert_eq!(capture.world, 3);
    assert_eq!(
        source.finish_viewport_read(&mut handle.shared, &capture),
        Ok(ViewportStep::Ready(1))
    );
    handle.shared.observation.bump_generation();
    assert_eq!(
        source.finish_viewport_read(&mut handle.shared, &capture),
        Ok(ViewportStep::Retry)
    );
    assert_eq!(after_viewport_retry(1), ViewportLoop::Again);
    assert_eq!(after_viewport_retry(3), ViewportLoop::GiveUp);
}

#[test]
fn the_dead_still_have_a_view() {
    let (mut handle, _events) = ready();
    handle.shared.observation.source = Some(FactSource::ServerObserved);
    let source = handle.observation_source();
    assert_eq!(handle.shared.admit_death_and_release(true, AT), Some(true));
    assert!(!handle.shared.flags.ready);
    let ticket = source.begin_viewport_read(&handle.shared).expect("ticket");
    assert!(matches!(
        source.capture_viewport(&handle.shared, ticket),
        Ok(ViewportStep::Ready(_))
    ));
}

#[test]
fn a_viewport_needs_a_snapshot() {
    let (mut handle, _events) = ready();
    let source = handle.observation_source();
    assert!(source.viewport(&handle.shared).expect("inputs").is_some());
    assert_eq!(source.finish_viewport(&handle.shared, Ok(())), Ok(()));
    handle.shared.observation.snapshot = None;
    assert!(matches!(
        source.viewport(&handle.shared),
        Ok(None) | Err(BackendError::NotReady { .. })
    ));
    assert_eq!(
        source.self_pose(&handle.shared),
        Err(BackendError::NotReady { state: Readiness::SelfPoseUnavailable })
    );
}

#[test]
fn a_directed_view_out_of_the_world_is_a_failure() {
    match backend_error_from_directed(DirectedViewportError::OutOfWorld) {
        BackendError::BackendFailure { failure } => {
            assert_eq!(failure.message, FailureMessage::ViewportOutOfWorld)
        }
        BackendError::InvalidCommand { .. } => {}
        other => panic!("expected a failure, got {other:?}"),
    }
    assert_eq!(
        backend_error_from_directed(DirectedViewportError::Backend(
            BackendError::SubscriptionClosed
        )),
        BackendError::SubscriptionClosed
    );
}

#[test]
fn a_negative_count_keeps_an_entity_back() {
    let mut armed = entity(1, 7);
    armed.equipment = Arc::new(vec![EntityEquipment {
        slot: 0,
        item_name: "minecraft:bow".to_owned(),
        count: -1,
    }]);
    match contract_entity_snapshot(&Arc::new(armed)) {
        Err(BackendError::BackendFailure { failure }) => {
            assert_eq!(failure.message, FailureMessage::NegativeItemCount(-1))
        }
        other => panic!("expected a failure, got {other:?}"),
    }
    assert_eq!(contract_entity_snapshot(&Arc::new(entity(1, 7))), Ok(()));
}

#[test]
fn a_frame_shows_armor_of_its_own_epoch() {
    let (mut handle, _events) = ready();
    let token = handle
        .shared
        .admit_canonical_source_with_token(5, Some(41))
        .expect("source");
    assert!(handle
        .shared
        .apply_armor_packet(token, &vec![AttributeReading { is_armor: true, value: Some(11) }]));
    assert_eq!(handle.capture_frame_facts().expect("facts").armor, Some(11));
    handle.shared.observation.armor_epoch = Some(9);
    assert_eq!(handle.capture_frame_facts().expect("facts").armor, None);
}

#[test]
fn a_stale_source_changes_no_frame() {
    let (mut handle, _events) = ready();
    let stale = handle
        .shared
        .admit_canonical_source_with_token(5, Some(41))
        .expect("source");
    assert!(handle.shared.reset_entity_scope_for_owner(5));
    assert!(!handle
        .shared
        .apply_armor_packet(stale, &vec![AttributeReading { is_armor: true, value: Some(11) }]));
    assert!(!handle.shared.remove_light_chunk(stale, 0, 0));
    assert!(!handle.shared.apply_light_packet(
        stale,
        geometry(),
        0,
        0,
        &layer_update(geometry(), 4, Some(1), Some(1)),
        true,
    ));
    assert_eq!(handle.shared.observation.armor, None);
}

#[test]
fn attributes_of_others_are_not_the_players_armor() {
    let (mut handle, _events) = ready();
    let readings = || vec![AttributeReading { is_armor: true, value: Some(4) }];
    for (id, armor) in [(8, None), (99, Some(4))] {
        handle.shared.produce_entity_packet_event(
            5,
            41,
            Some(99),
            GamePacket::UpdateAttributes { id, readings: readings() },
            AT,
        );
        assert_eq!(handle.shared.observation.armor, armor);
    }
}

#[test]
fn sounds_are_told_where_they_can_be() {
    let (mut handle, events) = ready();
    let sound = |name: &str, volume: f64| SoundEvent {
        sound_name: name.to_owned(),
        source_position: vec3(1.0, 2.0, 3.0),
        volume: double(volume),
        pitch: double(1.0),
    };
    assert!(canonical_sound_packet(&sound("minecraft:block.stone.step", 1.0)));
    assert!(!canonical_sound_packet(&sound("minecraft:block.stone.step", f64::NAN)));
    handle.shared.produce_entity_packet_event(
        5,
        41,
        Some(99),
        GamePacket::Sound(sound("minecraft:block.stone.step", 1.0)),
        AT,
    );
    handle.shared.produce_entity_packet_event(5, 41, Some(99), GamePacket::SoundEntity, AT);
    handle.shared.produce_entity_packet_event(5, 41, Some(99), GamePacket::Other, AT);
    let told = drain(events, &mut handle);
    assert_eq!(told.len(), 1);
    assert_eq!(told[0].kind(), BackendEventKind::Sound);
}

#[test]
fn skylight_is_proven_by_the_registry() {
    assert_eq!(prove_has_skylight(Some(DimensionTag::Byte(1))), Some(true));
    assert_eq!(prove_has_skylight(Some(DimensionTag::Byte(0))), Some(false));
    assert_eq!(prove_has_skylight(Some(DimensionTag::Other)), None);
    assert_eq!(prove_has_skylight(None), None);
}

#[test]
fn the_player_is_no_other_entity() {
    assert!(is_admitted_non_local_entity(Some(1), 2));
    assert!(!is_admitted_non_local_entity(Some(1), 1));
    assert!(!is_admitted_non_local_entity(None, 1));
}
