use std::sync::Arc;

use mineintent_backend::config::RunConfig;
use mineintent_backend::contract::{
    BackendClose, BackendEventEnvelope, BackendEventPayload, BackendLifecyclePayload, BackendState,
    CloseCode, EndReason, FactSource,
};
use mineintent_backend::entity_events::{
    AxisSteps, EntityIdentity, EntityMovePatch, EntityProducerInput, EntityProducerToken,
    MoveArithmetic, NormalizedEntityEvent, NormalizedEntitySnapshot,
};
use mineintent_backend::handle::{RuntimeEventReceiver, RuntimeHandle};
use mineintent_backend::number::{Double, Vec3Value};
use mineintent_backend::state::{AttemptAdmissionState, SharedRuntime};
use mineintent_backend::time::UtcInstant;
use mineintent_backend::tracking::EntityResidualAction;

const AT: UtcInstant = UtcInstant { seconds: 1_700_000_000, nanos: 0 };

fn double(value: f64) -> Double {
    Double { bits: value.to_bits() }
}

fn value(number: Double) -> f64 {
    f64::from_bits(number.bits)
}

fn vec3(x: f64, y: f64, z: f64) -> Vec3Value {
    Vec3Value { x: double(x), y: double(y), z: double(z) }
}


fn snapshot(epoch: u64, protocol_id: i32, x: f64) -> NormalizedEntitySnapshot {
    NormalizedEntitySnapshot {
        identity: EntityIdentity::new(epoch, protocol_id),
        entity_type: "minecraft:pig".to_owned(),
        uuid: Some(format!("entity-{protocol_id}")),
        name: None,
        username: None,
        position: vec3(x, 64.0, -3.0),
        velocity: vec3(0.25, 0.0, -0.5),
        yaw: double(45.0),
        pitch: double(-11.25),
        head_yaw: Some(double(90.0)),
        width: double(0.9),
        height: double(0.9),
        on_ground: true,
        pose: None,
        held_item_name: None,
        equipment: Arc::new(Vec::new()),
        valid: true,
    }
}

fn token(epoch: u64, admission: u64) -> EntityProducerToken {
    EntityProducerToken::new(epoch, format!("packet:{admission}"))
}

fn spawn(epoch: u64, admission: u64, snapshot: NormalizedEntitySnapshot) -> EntityProducerInput {
    EntityProducerInput::Spawn { token: token(epoch, admission), snapshot }
}

fn remove(epoch: u64, admission: u64, id: i32) -> EntityProducerInput {
    EntityProducerInput::Remove {
        token: token(epoch, admission),
        entity: EntityIdentity::new(epoch, id),
    }
}

/// The outcome of a movement that changes the position and velocity alone.
fn moved_to(position: Vec3Value, velocity: Vec3Value) -> MoveArithmetic {
    MoveArithmetic {
        position,
        velocity,
        yaw: double(45.0),
        pitch: double(-11.25),
        head_yaw: double(90.0),
    }
}

/// One block along the first axis.
fn step_east(
    shared: &SharedRuntime,
    epoch: u64,
    admission: u64,
    id: i32,
    on_ground: bool,
) -> EntityProducerInput {
    let entity = EntityIdentity::new(epoch, id);
    let before = shared.producer.cache.shadow(entity).expect("known entity");
    let position = vec3(
        ((value(before.position.x) * 4096.0).round() + 4096.0) / 4096.0,
        value(before.position.y),
        value(before.position.z),
    );
    EntityProducerInput::Move {
        token: token(epoch, admission),
        patch: EntityMovePatch::relative(
            entity,
            Some(AxisSteps { x: 4096, y: 0, z: 0 }),
            None,
            on_ground,
        ),
        computed: moved_to(position, before.velocity),
    }
}

fn apply(
    shared: &mut SharedRuntime,
    owner: u64,
    epoch: u64,
    input: EntityProducerInput,
) -> Option<NormalizedEntityEvent> {
    shared.apply_entity_input_for_owner_with_generation(owner, epoch, input).map(|(event, _)| event)
}

fn runtime() -> RuntimeHandle {
    RuntimeHandle::new(RunConfig::default(), "session".to_owned(), 1)
}

fn received(
    events: RuntimeEventReceiver,
    handle: &mut RuntimeHandle,
) -> Option<Arc<BackendEventEnvelope>> {
    events.try_recv(&mut handle.shared)
}

fn disconnected(
    handle: &mut RuntimeHandle,
    entity: u64,
    epoch: u64,
    reason: &str,
) -> Option<BackendClose> {
    handle.shared.admit_canonical_disconnected_with_token(
        entity,
        epoch,
        Some(reason.to_owned()),
        None,
        AT,
    )
}

fn connection_failed(
    handle: &mut RuntimeHandle,
    entity: u64,
    epoch: u64,
    error: &str,
) -> Option<BackendClose> {
    handle.shared.admit_canonical_connection_failed_with_token(
        entity,
        epoch,
        error.to_owned(),
        None,
        AT,
    )
}

fn bind_init(handle: &mut RuntimeHandle, entity: u64) -> Option<u64> {
    handle.shared.consume_attempt_for_transport_init_and_bind_with_token(entity, None, AT)
}

fn bind_return(handle: &mut RuntimeHandle, token: u64, entity: u64) -> Option<u64> {
    handle.shared.bind_reconnect_return_with_token(token, entity, None, AT)
}

const OWNER_A: u64 = 11;
const OWNER_B: u64 = 12;

#[test]
fn owner_binding_rejects_late_a_and_preserves_b_epoch2_shadow() {
    let mut handle = runtime();

    assert!(handle.shared.begin_connection_attempt(AT));
    assert_eq!(bind_init(&mut handle, OWNER_A), Some(1));
    assert_eq!(handle.shared.entity_producer_epoch_for(OWNER_A), Some(1));
    assert!(matches!(
        apply(&mut handle.shared, OWNER_A, 1, spawn(1, 1, snapshot(1, 7, 1.0))),
        Some(NormalizedEntityEvent::Spawned { .. })
    ));

    assert!(handle.shared.begin_connection_attempt(AT));
    assert_eq!(bind_init(&mut handle, OWNER_B), Some(2));
    assert_eq!(handle.shared.entity_producer_epoch_for(OWNER_A), None);
    assert_eq!(handle.shared.entity_producer_epoch_for(OWNER_B), Some(2));

    assert!(
        apply(&mut handle.shared, OWNER_A, 1, spawn(1, 2, snapshot(1, 8, 99.0))).is_none()
    );

    let spawned = apply(&mut handle.shared, OWNER_B, 2, spawn(2, 1, snapshot(2, 7, 10.0)));
    assert!(matches!(
        spawned,
        Some(NormalizedEntityEvent::Spawned { ref entity })
            if entity.entity_key() == "2:7" && value(entity.position.x) == 10.0
    ));

    // A late lifecycle message cannot reset or deactivate B's scope.
    assert!(!handle.shared.reset_entity_scope_for_owner(OWNER_A));
    assert!(!handle.shared.deactivate_entity_producer_owner(OWNER_A));
    assert_eq!(handle.shared.entity_producer_epoch_for(OWNER_B), Some(2));

    let step = step_east(&handle.shared, 2, 2, 7, false);
    let moved = apply(&mut handle.shared, OWNER_B, 2, step);
    assert!(matches!(
        moved,
        Some(NormalizedEntityEvent::Moved { ref entity })
            if entity.entity_key() == "2:7"
                && value(entity.position.x) == 11.0
                && !entity.on_ground
    ));

    let removed = apply(&mut handle.shared, OWNER_B, 2, remove(2, 3, 7));
    assert!(matches!(
        removed,
        Some(NormalizedEntityEvent::Removed { entity, ref last })
            if entity.key() == "2:7" && value(last.position.x) == 11.0
    ));

    assert!(handle.shared.deactivate_entity_producer_owner(OWNER_B));
    assert_eq!(handle.shared.entity_producer_epoch_for(OWNER_B), None);
    assert!(handle
        .shared
        .producer
        .cache
        .apply(2, spawn(2, 4, snapshot(2, 9, 12.0)))
        .is_none());
    assert!(
        apply(&mut handle.shared, OWNER_B, 2, spawn(2, 5, snapshot(2, 9, 12.0))).is_none()
    );
}

#[test]
fn accepted_a_payload_is_dropped_after_b_binds_instead_of_using_b_envelope() {
    let mut handle = runtime();
    let events = handle.subscribe();

    assert!(handle.shared.begin_connection_attempt(AT));
    let request_a = received(events, &mut handle).expect("attempt 1 request");
    assert_eq!(request_a.connection_epoch, 1);
    assert_eq!(bind_init(&mut handle, OWNER_A), Some(1));
    received(events, &mut handle).expect("A transport connected");

    // A's input is taken, and its publication has not begun.
    let (taken_a, generation_a) = handle
        .shared
        .apply_entity_input_for_owner_with_generation(
            OWNER_A,
            1,
            spawn(1, 1, snapshot(1, 7, 1.0)),
        )
        .expect("A input");

    assert!(handle.shared.begin_connection_attempt(AT));
    let request_b = received(events, &mut handle).expect("attempt 2 request");
    assert_eq!(request_b.connection_epoch, 2);
    assert_eq!(bind_init(&mut handle, OWNER_B), Some(2));
    received(events, &mut handle).expect("B transport connected");
    assert!(handle.shared.emit_entity_input(OWNER_B, 2, spawn(2, 1, snapshot(2, 7, 10.0)), AT));
    let spawned_b = received(events, &mut handle).expect("B spawn");
    assert_eq!(spawned_b.connection_epoch, 2);
    match &spawned_b.payload {
        BackendEventPayload::Entity(NormalizedEntityEvent::Spawned { entity }) => {
            assert_eq!(entity.entity_key(), "2:7");
            assert_eq!(value(entity.position.x), 10.0);
        }
        payload => panic!("expected B spawned payload, got {payload:?}"),
    }

    assert!(!handle.shared.publish_entity_event(
        OWNER_A,
        1,
        generation_a,
        taken_a,
        EntityResidualAction::Retain,
        AT,
    ));
    assert!(
        received(events, &mut handle).is_none(),
        "accepted A payload must not appear under B metadata"
    );

    let step = step_east(&handle.shared, 2, 2, 7, false);
    assert!(handle.shared.emit_entity_input(OWNER_B, 2, step, AT));
    assert!(handle.shared.emit_entity_input(OWNER_B, 2, remove(2, 3, 7), AT));
    let moved_b = received(events, &mut handle).expect("B move");
    let removed_b = received(events, &mut handle).expect("B remove");
    assert_eq!(moved_b.connection_epoch, 2);
    assert_eq!(removed_b.connection_epoch, 2);
    match &removed_b.payload {
        BackendEventPayload::Entity(NormalizedEntityEvent::Removed { entity, last }) => {
            assert_eq!(entity.key(), "2:7");
            assert_eq!(last.entity_key(), "2:7");
            assert_eq!(value(last.position.x), 11.0);
        }
        payload => panic!("expected B removed payload, got {payload:?}"),
    }
    assert!(received(events, &mut handle).is_none());
}

#[test]
fn init_owner_bind_and_attempt_transition_share_one_epoch_transaction() {
    let mut handle = runtime();

    assert!(handle.shared.begin_connection_attempt(AT));
    assert_eq!(handle.shared.writer.connection_epoch, 1);
    assert_eq!(bind_init(&mut handle, OWNER_A), Some(1));
    assert_eq!(handle.shared.producer.owner, Some((OWNER_A, 1)));
    assert_eq!(handle.shared.writer.connection_epoch, 1);

    assert!(handle.shared.begin_connection_attempt(AT));
    assert_eq!(handle.shared.writer.connection_epoch, 2);
    assert_eq!(handle.shared.entity_producer_epoch_for(OWNER_A), None);
    assert_eq!(bind_init(&mut handle, OWNER_B), Some(2));
    assert_eq!(handle.shared.entity_producer_epoch_for(OWNER_B), Some(2));
}

#[test]
fn swarm_disconnect_deactivates_current_owner_but_late_a_disconnect_cannot_clear_b() {
    let mut handle = runtime();

    assert!(handle.shared.begin_connection_attempt(AT));
    assert_eq!(bind_init(&mut handle, OWNER_A), Some(1));
    assert!(handle.shared.begin_connection_attempt(AT));
    assert_eq!(bind_init(&mut handle, OWNER_B), Some(2));
    assert_eq!(handle.shared.entity_producer_epoch_for(OWNER_B), Some(2));

    // The source that carries an entity closes B first.  The later swarm event
    // is only the fallback of the reconnect.
    assert!(disconnected(&mut handle, OWNER_B, 2, "B canonical disconnect").is_some());
    assert!(handle.shared.claim_reconnect_with_token(None));
    assert_eq!(handle.shared.entity_producer_epoch_for(OWNER_B), None);
    assert!(!handle.shared.deactivate_entity_producer_owner(OWNER_A));
    assert!(
        apply(&mut handle.shared, OWNER_B, 2, spawn(2, 1, snapshot(2, 7, 10.0))).is_none()
    );
}

#[test]
fn late_entity_lifecycle_cannot_close_b_but_current_b_disconnect_closes_once() {
    let mut handle = runtime();
    let events = handle.subscribe();

    assert!(handle.shared.begin_connection_attempt(AT));
    received(events, &mut handle).expect("attempt 1 request");
    assert_eq!(bind_init(&mut handle, OWNER_A), Some(1));
    received(events, &mut handle).expect("A transport connected");
    assert!(handle.shared.begin_connection_attempt(AT));
    received(events, &mut handle).expect("attempt 2 request");
    assert_eq!(bind_init(&mut handle, OWNER_B), Some(2));
    received(events, &mut handle).expect("B transport connected");

    handle.shared.observation.generation = 77;
    handle.shared.observation.source = Some(FactSource::ServerObserved);
    handle
        .send_chat("must survive stale lifecycle".to_owned(), AT)
        .expect("pending command admission");

    assert!(disconnected(&mut handle, OWNER_A, 1, "late A disconnect").is_none());
    assert!(connection_failed(&mut handle, OWNER_A, 1, "late A failure").is_none());

    assert_eq!(handle.shared.entity_producer_epoch_for(OWNER_B), Some(2));
    assert!(!handle.shared.flags.disconnect_reported);
    assert!(handle.shared.connection.last_close.is_none());
    assert!(handle.shared.connection.last_failure.is_none());
    assert_eq!(handle.shared.observation.generation, 77);
    assert_eq!(handle.shared.observation.source, Some(FactSource::ServerObserved));
    assert_eq!(handle.shared.commands.len(), 1);
    assert!(received(events, &mut handle).is_none());
    assert!(matches!(handle.state(), BackendState::LoggingIn { epoch: 2, .. }));

    assert!(disconnected(&mut handle, OWNER_B, 2, "current B disconnect").is_some());
    let closed = received(events, &mut handle).expect("current B close");
    assert_eq!(closed.connection_epoch, 2);
    assert!(matches!(
        closed.payload,
        BackendEventPayload::Lifecycle(BackendLifecyclePayload::ConnectionClosed { .. })
    ));
    assert!(received(events, &mut handle).is_none(), "close must be emitted once");
    assert_eq!(handle.shared.entity_producer_epoch_for(OWNER_B), None);
    assert!(handle.shared.commands.is_empty());
}

#[test]
fn pre_init_connection_failed_claims_only_the_unbound_current_attempt() {
    let mut handle = runtime();
    let events = handle.subscribe();
    let owner = OWNER_A;

    assert!(handle.shared.begin_connection_attempt(AT));
    received(events, &mut handle).expect("pre-Init attempt request");
    assert!(handle.shared.admit_canonical_join_started_with_token(1, None));
    assert!(connection_failed(&mut handle, owner, 1, "failed before Init").is_some());
    let closed = received(events, &mut handle).expect("pre-Init failure close");
    assert_eq!(closed.connection_epoch, 1);
    assert!(matches!(
        closed.payload,
        BackendEventPayload::Lifecycle(BackendLifecyclePayload::ConnectionClosed { .. })
    ));
    assert!(connection_failed(&mut handle, owner, 1, "duplicate pre-Init failure").is_none());
    assert!(handle.shared.take_canonical_connection_failure_followup_with_token(owner, None));
    assert!(!handle.shared.take_canonical_connection_failure_followup_with_token(owner, None));
    assert!(handle.shared.entity_producer_epoch_for(owner).is_none());
    assert!(matches!(
        handle.shared.producer.attempt,
        AttemptAdmissionState::Closed { epoch: 1 }
    ));
    assert!(received(events, &mut handle).is_none());
}

#[test]
fn same_entity_reconnect_return_binds_without_init_and_publishes_spawn_move_remove() {
    let mut handle = runtime();
    let events = handle.subscribe();
    let entity = OWNER_A;

    assert!(handle.shared.begin_connection_attempt(AT));
    received(events, &mut handle).expect("A request");
    assert_eq!(bind_init(&mut handle, entity), Some(1));
    received(events, &mut handle).expect("A transport");
    assert!(disconnected(&mut handle, entity, 1, "A ended").is_some());
    received(events, &mut handle).expect("A close");

    assert!(handle.shared.claim_reconnect_with_token(None));
    let reconnect_token =
        handle.shared.admit_reconnect_attempt(AT).expect("B reconnect admission");
    received(events, &mut handle).expect("B request");

    // B has no Init.  The returned client takes the reserved identity of B
    // directly, before the reconnect is finished.
    assert_eq!(bind_return(&mut handle, reconnect_token, entity), Some(2));
    let transport_b = received(events, &mut handle).expect("B transport");
    assert_eq!(transport_b.connection_epoch, 2);
    handle.shared.finish_reconnect_attempt(reconnect_token);
    assert_eq!(handle.shared.entity_producer_epoch_for(entity), Some(2));
    let source = handle.observation_source();

    // A late Init changes nothing once the return is bound.
    assert_eq!(bind_init(&mut handle, entity), Some(2));
    assert!(received(events, &mut handle).is_none());

    assert!(handle.shared.emit_entity_input(entity, 2, spawn(2, 1, snapshot(2, 7, 10.0)), AT));
    let after_spawn = source.list_tracked_entities(&handle.shared).expect("spawn observation");
    assert_eq!(after_spawn.len(), 1);
    assert_eq!(after_spawn[0].entity_key(), "2:7");
    assert_eq!(after_spawn[0].entity_type, "minecraft:pig");
    assert_eq!(value(after_spawn[0].position.x), 10.0);
    assert_eq!(after_spawn[0].head_yaw.map(value), Some(90.0));
    let step = step_east(&handle.shared, 2, 2, 7, false);
    assert!(handle.shared.emit_entity_input(entity, 2, step, AT));
    let after_move = source.list_tracked_entities(&handle.shared).expect("move observation");
    assert_eq!(after_move[0].entity_key(), "2:7");
    assert_eq!(value(after_move[0].position.x), 11.0);
    assert_eq!(after_move[0].entity_type, "minecraft:pig");
    assert!(handle.shared.emit_entity_input(entity, 2, remove(2, 3, 7), AT));
    assert!(source
        .list_tracked_entities(&handle.shared)
        .expect("remove observation")
        .is_empty());

    let spawned = received(events, &mut handle).expect("B spawn");
    let moved = received(events, &mut handle).expect("B move");
    let removed = received(events, &mut handle).expect("B remove");
    assert_eq!(spawned.connection_epoch, 2);
    assert_eq!(moved.connection_epoch, 2);
    assert_eq!(removed.connection_epoch, 2);
    match (&spawned.payload, &moved.payload, &removed.payload) {
        (
            BackendEventPayload::Entity(NormalizedEntityEvent::Spawned { entity: spawn }),
            BackendEventPayload::Entity(NormalizedEntityEvent::Moved { entity: move_ }),
            BackendEventPayload::Entity(NormalizedEntityEvent::Removed { entity, last }),
        ) => {
            assert_eq!(spawn.entity_key(), "2:7");
            assert_eq!(move_.entity_key(), "2:7");
            assert_eq!(entity.key(), "2:7");
            assert_eq!(last.entity_key(), "2:7");
            assert_eq!(value(last.position.x), 11.0);
        }
        payloads => panic!("expected Spawn/Move/Remove, got {payloads:?}"),
    }
}

#[test]
fn same_entity_late_a_source_epoch_is_inert_before_and_after_b_bind() {
    let mut handle = runtime();
    let events = handle.subscribe();
    let entity = OWNER_A;

    assert!(handle.shared.begin_connection_attempt(AT));
    received(events, &mut handle).expect("A request");
    assert_eq!(bind_init(&mut handle, entity), Some(1));
    received(events, &mut handle).expect("A transport");
    assert!(disconnected(&mut handle, entity, 1, "A ended").is_some());
    received(events, &mut handle).expect("A close");

    assert!(handle.shared.claim_reconnect_with_token(None));
    let reconnect_token =
        handle.shared.admit_reconnect_attempt(AT).expect("B reconnect admission");
    received(events, &mut handle).expect("B request");

    // B is reserved and not bound.  The source of epoch 1 is refused, though
    // its entity is the same client.
    assert!(disconnected(&mut handle, entity, 1, "late A").is_none());
    assert!(connection_failed(&mut handle, entity, 1, "late A failure").is_none());
    assert!(!handle.shared.admit_canonical_packet_source_for_epoch(entity, 1));

    assert_eq!(bind_return(&mut handle, reconnect_token, entity), Some(2));
    received(events, &mut handle).expect("B transport");
    handle.shared.finish_reconnect_attempt(reconnect_token);
    assert!(handle.shared.emit_entity_input(entity, 2, spawn(2, 10, snapshot(2, 7, 20.0)), AT));
    received(events, &mut handle).expect("B spawn");

    // The same stale evidence remains inert after B owns the entity.
    assert!(disconnected(&mut handle, entity, 1, "late A 2").is_none());
    assert!(connection_failed(&mut handle, entity, 1, "late A failure 2").is_none());
    assert!(!handle.shared.admit_canonical_packet_source_for_epoch(entity, 1));
    assert!(!handle.shared.reset_entity_scope_for_owner_at_epoch_with_dimension_and_light(
        entity, 1, None, None, AT,
    ));
    assert!(
        apply(&mut handle.shared, entity, 1, spawn(1, 11, snapshot(1, 7, 999.0))).is_none()
    );

    let step = step_east(&handle.shared, 2, 12, 7, true);
    assert!(handle.shared.emit_entity_input(entity, 2, step, AT));
    let moved = received(events, &mut handle).expect("B move after stale A");
    match &moved.payload {
        BackendEventPayload::Entity(NormalizedEntityEvent::Moved { entity }) => {
            assert_eq!(entity.entity_key(), "2:7");
            assert_eq!(value(entity.position.x), 21.0);
        }
        payload => panic!("expected B moved payload, got {payload:?}"),
    }
    assert!(received(events, &mut handle).is_none());
}

#[test]
fn same_entity_current_preinit_failure_and_bound_closes_preserve_reason_once() {
    let mut pre_init = runtime();
    let pre_events = pre_init.subscribe();
    let entity = OWNER_A;

    assert!(pre_init.shared.begin_connection_attempt(AT));
    received(pre_events, &mut pre_init).expect("pre-Init request");
    assert!(pre_init.shared.admit_canonical_join_started_with_token(1, None));
    assert!(connection_failed(&mut pre_init, entity, 1, "pre-init exact error").is_some());
    let close = received(pre_events, &mut pre_init).expect("pre-Init close");
    match &close.payload {
        BackendEventPayload::Lifecycle(BackendLifecyclePayload::ConnectionClosed { close }) => {
            assert_eq!(close.code, CloseCode::ConnectionFailed);
            assert_eq!(close.code.text(), "connection_failed");
            assert_eq!(
                close.error.as_ref().expect("failure error").message,
                "pre-init exact error"
            );
        }
        payload => panic!("expected pre-Init close, got {payload:?}"),
    }
    assert!(connection_failed(&mut pre_init, entity, 1, "duplicate").is_none());
    assert!(pre_init.shared.take_canonical_connection_failure_followup_with_token(entity, None));
    assert!(!pre_init.shared.take_canonical_connection_failure_followup_with_token(entity, None));
    assert!(received(pre_events, &mut pre_init).is_none());

    let mut bound = runtime();
    let bound_events = bound.subscribe();
    let bound_entity = OWNER_B;
    assert!(bound.shared.begin_connection_attempt(AT));
    received(bound_events, &mut bound).expect("bound request");
    assert_eq!(bind_init(&mut bound, bound_entity), Some(1));
    received(bound_events, &mut bound).expect("bound transport");
    assert!(disconnected(&mut bound, bound_entity, 1, "current B exact reason").is_some());
    let close = received(bound_events, &mut bound).expect("bound close");
    match &close.payload {
        BackendEventPayload::Lifecycle(BackendLifecyclePayload::ConnectionClosed { close }) => {
            assert_eq!(close.code, CloseCode::UnclassifiedKick);
            assert_eq!(close.code.text(), "unclassified_kick");
            assert_eq!(
                close.end_reason,
                Some(EndReason::Text("current B exact reason".to_owned()))
            );
        }
        payload => panic!("expected bound close, got {payload:?}"),
    }
    assert!(disconnected(&mut bound, bound_entity, 1, "duplicate reason").is_none());
    assert!(received(bound_events, &mut bound).is_none());
}

fn exercise_reserved_attempt(init_first: bool) {
    let mut handle = runtime();
    let events = handle.subscribe();
    let entity = OWNER_A;

    assert!(handle.shared.begin_connection_attempt(AT));
    received(events, &mut handle).expect("A request");
    assert_eq!(bind_init(&mut handle, entity), Some(1));
    received(events, &mut handle).expect("A transport");
    assert!(disconnected(&mut handle, entity, 1, "A ended").is_some());
    received(events, &mut handle).expect("A close");
    assert!(handle.shared.claim_reconnect_with_token(None));
    let reconnect_token = handle.shared.admit_reconnect_attempt(AT).expect("B admission");
    received(events, &mut handle).expect("B request");

    if init_first {
        assert!(!handle.shared.admit_canonical_join_started_with_token(2, None));
        assert_eq!(bind_init(&mut handle, entity), None);
        assert_eq!(bind_return(&mut handle, reconnect_token, entity), Some(2));
        received(events, &mut handle).expect("B transport");
    } else {
        assert_eq!(bind_return(&mut handle, reconnect_token, entity), Some(2));
        received(events, &mut handle).expect("B transport");
        assert_eq!(bind_init(&mut handle, entity), Some(2));
    }
    assert_eq!(bind_return(&mut handle, reconnect_token, entity), Some(2));
    assert_eq!(bind_init(&mut handle, entity), Some(2));
    handle.shared.finish_reconnect_attempt(reconnect_token);
    assert_eq!(handle.shared.entity_producer_epoch_for(entity), Some(2));
    assert!(received(events, &mut handle).is_none());
}

#[test]
fn same_reserved_attempt_init_is_rejected_and_return_is_idempotent() {
    exercise_reserved_attempt(true);
    exercise_reserved_attempt(false);
}
