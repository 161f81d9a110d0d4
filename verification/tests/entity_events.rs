use std::sync::Arc;

use mineintent_backend::entity_events::{
    AxisFlags, AxisSteps, CompactLook, EntityEquipment, EntityIdentity, EntityMovePatch,
    EntityPose, EntityProducerCache, EntityProducerInput, EntityProducerToken,
    EntityRemovalReason, MoveArithmetic, NormalizedEntityEvent, NormalizedEntitySnapshot,
    PacketKind, TokenName, WideLook, ENTITY_PRODUCER_DEDUPE_CAPACITY,
};
use mineintent_backend::number::{Double, Vec3Value};

fn double(value: f64) -> Double {
    Double { bits: value.to_bits() }
}

fn value(number: Double) -> f64 {
    f64::from_bits(number.bits)
}

fn vec3(axes: [f64; 3]) -> Vec3Value {
    Vec3Value { x: double(axes[0]), y: double(axes[1]), z: double(axes[2]) }
}

fn axes(vector: Vec3Value) -> [f64; 3] {
    [value(vector.x), value(vector.y), value(vector.z)]
}

fn compact_rotation_radians(step: i8) -> f64 {
    (f64::from(i32::from(step) * 360) / 256.0).to_radians()
}

fn compact_pitch_radians(step: i8) -> f64 {
    (f64::from(i32::from(step) * 360) / 256.0).clamp(-90.0, 90.0).to_radians()
}

fn clamp_pitch(pitch: f64) -> f64 {
    pitch.clamp(-std::f64::consts::FRAC_PI_2, std::f64::consts::FRAC_PI_2)
}

fn stepped(base: f64, step: i64) -> f64 {
    if step == 0 {
        base
    } else {
        ((base * 4096.0).round() + step as f64) / 4096.0
    }
}

fn turned(velocity: [f64; 3], pitch: f64, yaw: f64) -> [f64; 3] {
    let (pitch_sin, pitch_cos) = (pitch.sin(), pitch.cos());
    let y = velocity[1] * pitch_cos + velocity[2] * pitch_sin;
    let z = velocity[2] * pitch_cos - velocity[1] * pitch_sin;
    let (yaw_sin, yaw_cos) = (yaw.sin(), yaw.cos());
    [velocity[0] * yaw_cos + z * yaw_sin, y, z * yaw_cos - velocity[0] * yaw_sin]
}

/// The floating-point work of a movement.
fn arithmetic(before: &NormalizedEntitySnapshot, patch: &EntityMovePatch) -> MoveArithmetic {
    let old_position = axes(before.position);
    let mut position = old_position;
    if let Some(delta) = patch.delta {
        position = [
            stepped(old_position[0], delta.x),
            stepped(old_position[1], delta.y),
            stepped(old_position[2], delta.z),
        ];
    }
    if let Some(absolute) = patch.absolute_position {
        let absolute = axes(absolute);
        let relative =
            [patch.relative_position.x, patch.relative_position.y, patch.relative_position.z];
        for axis in 0..3 {
            position[axis] =
                if relative[axis] { position[axis] + absolute[axis] } else { absolute[axis] };
        }
    }
    let (old_yaw, old_pitch) = (value(before.yaw), value(before.pitch));
    let (mut yaw, mut pitch) = (old_yaw, old_pitch);
    if let Some(look) = patch.compact_look {
        yaw = compact_rotation_radians(look.yaw);
        pitch = compact_pitch_radians(look.pitch);
    }
    if let Some(look) = patch.absolute_look {
        yaw = if patch.relative_yaw { old_yaw + value(look.yaw) } else { value(look.yaw) };
        pitch = clamp_pitch(if patch.relative_pitch {
            old_pitch + value(look.pitch)
        } else {
            value(look.pitch)
        });
    }
    let mut velocity = axes(before.velocity);
    if patch.rotate_velocity {
        velocity = turned(velocity, old_pitch - pitch, old_yaw - yaw);
    }
    if let Some(given) = patch.velocity {
        let given = axes(given);
        let relative =
            [patch.relative_velocity.x, patch.relative_velocity.y, patch.relative_velocity.z];
        for axis in 0..3 {
            velocity[axis] = if relative[axis] { velocity[axis] + given[axis] } else { given[axis] };
        }
    }
    MoveArithmetic {
        position: vec3(position),
        velocity: vec3(velocity),
        yaw: double(yaw),
        pitch: double(pitch),
        head_yaw: double(patch.head_yaw.map_or(0.0, compact_rotation_radians)),
    }
}

fn apply_move(
    cache: &mut EntityProducerCache,
    epoch: u64,
    token: EntityProducerToken,
    patch: EntityMovePatch,
) -> Option<NormalizedEntityEvent> {
    let computed = match cache.shadow(patch.entity) {
        Some(before) => arithmetic(&before, &patch),
        None => MoveArithmetic {
            position: vec3([0.0; 3]),
            velocity: vec3([0.0; 3]),
            yaw: double(0.0),
            pitch: double(0.0),
            head_yaw: double(0.0),
        },
    };
    cache.apply(epoch, EntityProducerInput::Move { token, patch, computed })
}

fn snapshot(epoch: u64, id: i32, x: f64) -> NormalizedEntitySnapshot {
    NormalizedEntitySnapshot {
        identity: EntityIdentity::new(epoch, id),
        entity_type: "minecraft:zombie".to_owned(),
        uuid: Some("00000000-0000-0000-0000-000000000001".to_owned()),
        name: None,
        username: None,
        position: vec3([x, 64.0, 2.0]),
        velocity: vec3([0.0, 0.0, 0.0]),
        yaw: double(90.0_f64.to_radians()),
        pitch: double(10.0_f64.to_radians()),
        head_yaw: None,
        width: double(0.6),
        height: double(1.8),
        on_ground: false,
        pose: Some(EntityPose::Standing),
        held_item_name: None,
        equipment: Arc::new(Vec::new()),
        valid: true,
    }
}

fn token(epoch: u64, value: impl Into<String>) -> EntityProducerToken {
    EntityProducerToken::new(epoch, value.into())
}

fn move_patch(
    epoch: u64,
    id: i32,
    delta: Option<[i64; 3]>,
    compact_look: Option<[i8; 2]>,
    on_ground: bool,
) -> EntityMovePatch {
    EntityMovePatch::relative(
        EntityIdentity::new(epoch, id),
        delta.map(|[x, y, z]| AxisSteps { x, y, z }),
        compact_look.map(|[yaw, pitch]| CompactLook { yaw, pitch }),
        on_ground,
    )
}

fn spawn(
    cache: &mut EntityProducerCache,
    epoch: u64,
    name: &str,
    snapshot: NormalizedEntitySnapshot,
) -> Option<NormalizedEntityEvent> {
    cache.apply(epoch, EntityProducerInput::Spawn { token: token(epoch, name), snapshot })
}

fn remove(
    cache: &mut EntityProducerCache,
    epoch: u64,
    name: &str,
    entity: EntityIdentity,
) -> Option<NormalizedEntityEvent> {
    cache.apply(epoch, EntityProducerInput::Remove { token: token(epoch, name), entity })
}

const NO_AXIS: AxisFlags = AxisFlags { x: false, y: false, z: false };

#[test]
fn entity_key_is_epoch_and_protocol_id() {
    assert_eq!(EntityIdentity::new(1, 7).key(), "1:7");
    assert_ne!(EntityIdentity::new(2, 7).key(), "1:7");
}

#[test]
fn six_event_sequence_uses_latest_snapshot_and_empty_update_fields() {
    let mut cache = EntityProducerCache::new();
    cache.reset_scope(1);
    let identity = EntityIdentity::new(1, 7);

    assert!(matches!(
        spawn(&mut cache, 1, "add:7", snapshot(1, 7, 1.0)),
        Some(NormalizedEntityEvent::Spawned { .. })
    ));
    assert!(matches!(
        apply_move(
            &mut cache,
            1,
            token(1, "move:7:1"),
            move_patch(1, 7, Some([1024, 0, 0]), None, false),
        ),
        Some(NormalizedEntityEvent::Moved { .. })
    ));
    assert!(matches!(
        cache.apply(
            1,
            EntityProducerInput::Update {
                token: token(1, "metadata:7:1"),
                snapshot: snapshot(1, 7, 1.25),
            },
        ),
        Some(NormalizedEntityEvent::Updated { changed, .. }) if changed.names().is_empty()
    ));
    assert!(matches!(
        cache.apply(
            1,
            EntityProducerInput::Animation {
                token: token(1, "animate:7:1"),
                entity: identity,
                animation: "swing_main_hand".to_owned(),
            },
        ),
        Some(NormalizedEntityEvent::Animation { .. })
    ));
    assert!(matches!(
        cache.apply(
            1,
            EntityProducerInput::Hurt {
                token: token(1, "hurt:7:1"),
                entity: identity,
                possible_source: Some(EntityIdentity::new(1, 9)),
            },
        ),
        Some(NormalizedEntityEvent::Hurt { .. })
    ));

    let removed = remove(&mut cache, 1, "remove:7:1", identity);
    assert!(matches!(
        removed,
        Some(NormalizedEntityEvent::Removed { last, .. })
            if axes(last.position) == [1.25, 64.0, 2.0]
    ));
    assert!(remove(&mut cache, 1, "remove:7:2", identity).is_none());
}

#[test]
fn duplicate_token_is_suppressed_without_suppressing_other_events() {
    let mut cache = EntityProducerCache::new();
    cache.reset_scope(1);
    assert!(spawn(&mut cache, 1, "packet:1", snapshot(1, 1, 1.0)).is_some());
    assert!(spawn(&mut cache, 1, "packet:1", snapshot(1, 1, 1.0)).is_none());
    assert!(apply_move(
        &mut cache,
        1,
        token(1, "packet:2"),
        move_patch(1, 1, Some([4096, 0, 0]), None, false),
    )
    .is_some());
}

#[test]
fn compact_pitch_extreme_clamps_x_rot_100_to_half_pi() {
    assert!((compact_pitch_radians(100) - std::f64::consts::FRAC_PI_2).abs() < 1e-12);
    assert!((compact_pitch_radians(-100) + std::f64::consts::FRAC_PI_2).abs() < 1e-12);

    let mut cache = EntityProducerCache::new();
    cache.reset_scope(1);
    assert!(spawn(&mut cache, 1, "pitch:spawn", snapshot(1, 7, 1.0)).is_some());
    let moved = apply_move(
        &mut cache,
        1,
        token(1, "pitch:move"),
        move_patch(1, 7, None, Some([0, 100]), false),
    )
    .expect("extreme compact pitch should still produce a move");
    assert!(matches!(
        moved,
        NormalizedEntityEvent::Moved { entity }
            if (value(entity.pitch) - std::f64::consts::FRAC_PI_2).abs() < 1e-12
    ));
}

#[test]
fn scope_reset_drops_old_snapshots_and_tokens() {
    let mut cache = EntityProducerCache::new();
    cache.reset_scope(1);
    assert!(spawn(&mut cache, 1, "packet:1", snapshot(1, 7, 4.0)).is_some());

    cache.reset_scope(2);
    assert!(remove(&mut cache, 2, "remove:7", EntityIdentity::new(2, 7)).is_none());
    assert_eq!(cache.scope_epoch(), Some(2));
    assert!(spawn(&mut cache, 2, "packet:1", snapshot(2, 7, 8.0)).is_some());
}

#[test]
fn stale_epoch_input_cannot_cross_scope() {
    let mut cache = EntityProducerCache::new();
    cache.reset_scope(2);
    assert!(cache
        .apply(
            2,
            EntityProducerInput::Animation {
                token: token(1, "stale"),
                entity: EntityIdentity::new(2, 7),
                animation: "wake_up".to_owned(),
            },
        )
        .is_none());
}

#[test]
fn late_epoch_input_cannot_roll_back_active_scope_or_remove_its_snapshot() {
    let mut cache = EntityProducerCache::new();
    cache.reset_scope(2);
    let identity = EntityIdentity::new(2, 7);
    assert!(spawn(&mut cache, 2, "spawn:2:7", snapshot(2, 7, 20.0)).is_some());
    assert!(apply_move(
        &mut cache,
        1,
        token(1, "late:1:7"),
        move_patch(1, 7, Some([4096, 0, 0]), None, false),
    )
    .is_none());
    assert_eq!(cache.scope_epoch(), Some(2));

    let removed = remove(&mut cache, 2, "remove:2:7", identity);
    assert!(matches!(
        removed,
        Some(NormalizedEntityEvent::Removed { last, .. })
            if axes(last.position) == [20.0, 64.0, 2.0]
    ));
}

#[test]
fn invalid_snapshot_identity_is_not_emitted_stored_or_deduped() {
    let mut cache = EntityProducerCache::new();
    cache.reset_scope(2);

    assert!(spawn(&mut cache, 2, "retry:7", snapshot(1, 7, 1.0)).is_none());
    assert!(spawn(&mut cache, 2, "retry:7", snapshot(2, 7, 2.0)).is_some());
    assert!(remove(&mut cache, 2, "remove:7", EntityIdentity::new(2, 7)).is_some());
}

#[test]
fn invalid_hurt_source_is_not_deduped_and_valid_retry_emits() {
    let mut cache = EntityProducerCache::new();
    cache.reset_scope(2);
    let shared_token = token(2, "hurt:7:1");
    let entity = EntityIdentity::new(2, 7);

    assert!(cache
        .apply(
            2,
            EntityProducerInput::Hurt {
                token: shared_token.clone(),
                entity,
                possible_source: Some(EntityIdentity::new(1, 9)),
            },
        )
        .is_none());
    assert!(cache
        .apply(
            2,
            EntityProducerInput::Hurt {
                token: shared_token,
                entity,
                possible_source: Some(EntityIdentity::new(2, 9)),
            },
        )
        .is_some());
}

#[test]
fn recent_token_fifo_evicts_old_tokens_at_declared_capacity() {
    let mut cache = EntityProducerCache::new();
    cache.reset_scope(2);
    let entity = EntityIdentity::new(2, 7);
    let first_token = token(2, "animation:first");
    assert!(cache
        .apply(
            2,
            EntityProducerInput::Animation {
                token: first_token.clone(),
                entity,
                animation: "swing_main_hand".to_owned(),
            },
        )
        .is_some());

    for index in 0..ENTITY_PRODUCER_DEDUPE_CAPACITY {
        assert!(cache
            .apply(
                2,
                EntityProducerInput::Animation {
                    token: token(2, format!("animation:{index}")),
                    entity,
                    animation: "swing_off_hand".to_owned(),
                },
            )
            .is_some());
    }

    assert!(cache
        .apply(
            2,
            EntityProducerInput::Animation {
                token: first_token,
                entity,
                animation: "swing_main_hand".to_owned(),
            },
        )
        .is_some());
}

#[test]
fn received_batch_keeps_each_packet_state_in_spawn_move_move_remove_order() {
    let mut cache = EntityProducerCache::new();
    cache.reset_scope(4);
    let identity = EntityIdentity::new(4, 7);
    assert_eq!(identity.key(), "4:7");

    let mut add_snapshot = snapshot(4, 7, 10.0);
    add_snapshot.velocity = vec3([0.25, -0.5, 0.75]);
    add_snapshot.yaw = double(compact_rotation_radians(64));
    add_snapshot.pitch = double(compact_pitch_radians(-32));
    add_snapshot.head_yaw = Some(double(compact_rotation_radians(32)));

    let events = [
        spawn(&mut cache, 4, "admission:10:add", add_snapshot),
        apply_move(
            &mut cache,
            4,
            token(4, "admission:11:move-pos"),
            move_patch(4, 7, Some([4096, 0, 0]), None, false),
        ),
        apply_move(
            &mut cache,
            4,
            token(4, "admission:12:move-pos-rot"),
            move_patch(4, 7, Some([2048, 0, 0]), Some([32, -16]), true),
        ),
        remove(&mut cache, 4, "admission:13:remove:7:0", identity),
    ];

    let Some(NormalizedEntityEvent::Spawned { entity: spawned }) = &events[0] else {
        panic!("Add must produce Spawned");
    };
    assert_eq!(spawned.entity_key(), "4:7");
    assert_eq!(axes(spawned.position), [10.0, 64.0, 2.0]);
    assert_eq!(axes(spawned.velocity), [0.25, -0.5, 0.75]);
    assert_eq!(value(spawned.yaw), compact_rotation_radians(64));
    assert_eq!(value(spawned.pitch), compact_pitch_radians(-32));
    assert_eq!(spawned.head_yaw.map(value), Some(compact_rotation_radians(32)));

    let Some(NormalizedEntityEvent::Moved { entity: first_move }) = &events[1] else {
        panic!("MovePos must produce Moved");
    };
    assert_eq!(axes(first_move.position), [11.0, 64.0, 2.0]);
    assert_eq!(value(first_move.yaw), compact_rotation_radians(64), "pos-only must retain yaw");
    assert_eq!(value(first_move.pitch), compact_pitch_radians(-32), "pos-only must retain pitch");

    let Some(NormalizedEntityEvent::Moved { entity: second_move }) = &events[2] else {
        panic!("MovePosRot must produce Moved");
    };
    assert_eq!(axes(second_move.position), [11.5, 64.0, 2.0]);
    assert_eq!(value(second_move.yaw), compact_rotation_radians(32));
    assert_eq!(value(second_move.pitch), compact_pitch_radians(-16));
    assert!(second_move.on_ground);

    assert!(matches!(
        &events[3],
        Some(NormalizedEntityEvent::Removed { entity, last })
            if entity.key() == "4:7" && axes(last.position) == [11.5, 64.0, 2.0]
    ));

    cache.reset_scope(5);
    assert!(remove(&mut cache, 4, "late:remove:7", identity).is_none());
    assert_eq!(cache.scope_epoch(), Some(5));
}

#[test]
fn add_then_remove_same_batch_uses_packet_shadow_without_ecs_entity() {
    let mut cache = EntityProducerCache::new();
    cache.reset_scope(3);
    let identity = EntityIdentity::new(3, 21);
    let add = snapshot(3, 21, 8.0);

    let spawned = spawn(&mut cache, 3, "admission:20:add", add.clone());
    let removed = remove(&mut cache, 3, "admission:21:remove:21:0", identity);

    assert!(matches!(spawned, Some(NormalizedEntityEvent::Spawned { .. })));
    assert!(matches!(
        removed,
        Some(NormalizedEntityEvent::Removed { last, .. }) if *last == add
    ));
}

#[test]
fn rot_only_preserves_position_pos_only_preserves_look_and_unknown_move_is_ignored() {
    let mut cache = EntityProducerCache::new();
    cache.reset_scope(6);
    let mut add = snapshot(6, 7, 3.0);
    add.yaw = double(12.0_f64.to_radians());
    add.pitch = double(-6.0_f64.to_radians());
    assert!(spawn(&mut cache, 6, "admission:30:add", add).is_some());

    let rotation = apply_move(
        &mut cache,
        6,
        token(6, "admission:31:move-rot"),
        move_patch(6, 7, None, Some([16, -8]), true),
    );
    let Some(NormalizedEntityEvent::Moved { entity: rotated }) = rotation else {
        panic!("known rot-only move must emit");
    };
    assert_eq!(axes(rotated.position), [3.0, 64.0, 2.0]);
    assert_eq!(value(rotated.yaw), compact_rotation_radians(16));
    assert_eq!(value(rotated.pitch), compact_pitch_radians(-8));

    let position = apply_move(
        &mut cache,
        6,
        token(6, "admission:32:move-pos"),
        move_patch(6, 7, Some([4096, 0, 0]), None, false),
    );
    let Some(NormalizedEntityEvent::Moved { entity: moved }) = position else {
        panic!("known pos-only move must emit");
    };
    assert_eq!(axes(moved.position), [4.0, 64.0, 2.0]);
    assert_eq!(value(moved.yaw), compact_rotation_radians(16));
    assert_eq!(value(moved.pitch), compact_pitch_radians(-8));

    let unknown_token = token(6, "admission:33:unknown-move");
    assert!(apply_move(
        &mut cache,
        6,
        unknown_token.clone(),
        move_patch(6, 99, Some([4096, 0, 0]), None, false),
    )
    .is_none());
    assert!(spawn(&mut cache, 6, "admission:34:add-unknown", snapshot(6, 99, 20.0)).is_some());
    assert!(apply_move(
        &mut cache,
        6,
        unknown_token,
        move_patch(6, 99, Some([4096, 0, 0]), None, false),
    )
    .is_some());
}

#[test]
fn world_boundary_preserves_old_remove_and_starts_a_new_shadow() {
    let mut cache = EntityProducerCache::new();
    cache.reset_scope(1);

    assert!(spawn(&mut cache, 1, "before:add:7", snapshot(1, 7, 10.0)).is_some());
    assert!(matches!(
        apply_move(
            &mut cache,
            1,
            token(1, "before:move:7"),
            move_patch(1, 7, Some([4096, 0, 0]), None, true),
        ),
        Some(NormalizedEntityEvent::Moved { entity })
            if value(entity.position.x) == 11.0
    ));
    assert!(matches!(
        remove(&mut cache, 1, "before:remove:7", EntityIdentity::new(1, 7)),
        Some(NormalizedEntityEvent::Removed { last, .. })
            if value(last.position.x) == 11.0
    ));

    assert!(spawn(&mut cache, 1, "before:add:8", snapshot(1, 8, 30.0)).is_some());
    cache.reset_scope(1);
    assert!(remove(&mut cache, 1, "after:remove:8", EntityIdentity::new(1, 8)).is_none());

    assert!(spawn(&mut cache, 1, "after:add:7", snapshot(1, 7, 20.0)).is_some());
    assert!(matches!(
        apply_move(
            &mut cache,
            1,
            token(1, "after:move:7"),
            move_patch(1, 7, Some([4096, 0, 0]), None, false),
        ),
        Some(NormalizedEntityEvent::Moved { entity })
            if value(entity.position.x) == 21.0
    ));
    assert!(matches!(
        remove(&mut cache, 1, "after:remove:7", EntityIdentity::new(1, 7)),
        Some(NormalizedEntityEvent::Removed { last, .. })
            if value(last.position.x) == 21.0
    ));
}

#[test]
fn teleport_mixed_relative_applies_old_velocity_rotation_before_delta() {
    let mut cache = EntityProducerCache::new();
    cache.reset_scope(8);
    let identity = EntityIdentity::new(8, 7);
    let mut add = snapshot(8, 7, 10.0);
    add.yaw = double(30.0_f64.to_radians());
    add.pitch = double(20.0_f64.to_radians());
    add.velocity = vec3([1.0, 2.0, 3.0]);
    assert!(spawn(&mut cache, 8, "teleport:add", add).is_some());

    let moved = apply_move(
        &mut cache,
        8,
        token(8, "teleport:1"),
        EntityMovePatch::teleport(
            identity,
            vec3([1.0, 70.0, -2.0]),
            WideLook {
                yaw: double(50.0_f64.to_radians()),
                pitch: double(35.0_f64.to_radians()),
            },
            AxisFlags { x: true, y: false, z: true },
            false,
            false,
            vec3([0.5, 4.0, -0.25]),
            AxisFlags { x: true, y: false, z: true },
            true,
            true,
        ),
    );
    let Some(NormalizedEntityEvent::Moved { entity }) = moved else {
        panic!("teleport must produce Moved");
    };
    assert_eq!(axes(entity.position), [11.0, 70.0, 0.0]);
    assert_eq!(value(entity.yaw), 50.0_f64.to_radians());
    assert_eq!(value(entity.pitch), 35.0_f64.to_radians());
    let rotated = turned(
        [1.0, 2.0, 3.0],
        20.0_f64.to_radians() - 35.0_f64.to_radians(),
        30.0_f64.to_radians() - 50.0_f64.to_radians(),
    );
    let velocity = axes(entity.velocity);
    assert!((velocity[0] - (rotated[0] + 0.5)).abs() < 1e-12);
    assert!((velocity[1] - 4.0).abs() < 1e-12);
    assert!((velocity[2] - (rotated[2] - 0.25)).abs() < 1e-12);
    assert!(entity.on_ground);
}

#[test]
fn position_sync_is_absolute_and_rotate_head_is_a_shadow_move() {
    let mut cache = EntityProducerCache::new();
    cache.reset_scope(9);
    let identity = EntityIdentity::new(9, 12);
    assert!(spawn(&mut cache, 9, "sync:add", snapshot(9, 12, 2.0)).is_some());

    let synced = apply_move(
        &mut cache,
        9,
        token(9, "sync:1"),
        EntityMovePatch::position_sync(
            identity,
            vec3([20.0, 65.0, -4.0]),
            WideLook {
                yaw: double(180.0_f64.to_radians()),
                pitch: double(-30.0_f64.to_radians()),
            },
            vec3([0.0, 1.25, 0.0]),
            true,
        ),
    );
    let Some(NormalizedEntityEvent::Moved { entity }) = synced else {
        panic!("position sync must produce Moved");
    };
    assert_eq!(axes(entity.position), [20.0, 65.0, -4.0]);
    assert_eq!(value(entity.yaw), 180.0_f64.to_radians());
    assert_eq!(value(entity.pitch), -30.0_f64.to_radians());
    assert_eq!(axes(entity.velocity), [0.0, 1.25, 0.0]);
    assert!(entity.on_ground);

    let rotated = apply_move(
        &mut cache,
        9,
        token(9, "rotate-head:1"),
        EntityMovePatch::rotate_head(identity, 64),
    );
    let Some(NormalizedEntityEvent::Moved { entity }) = rotated else {
        panic!("rotate head must produce Moved");
    };
    assert_eq!(entity.head_yaw.map(value), Some(compact_rotation_radians(64)));
    assert_eq!(axes(entity.position), [20.0, 65.0, -4.0]);
    assert_eq!(value(entity.yaw), 180.0_f64.to_radians());
    assert!(entity.on_ground, "head-only movement must retain on_ground");
}

fn plain_teleport(identity: EntityIdentity, position: [f64; 3]) -> EntityMovePatch {
    EntityMovePatch::teleport(
        identity,
        vec3(position),
        WideLook { yaw: double(0.0), pitch: double(0.0) },
        NO_AXIS,
        false,
        false,
        vec3([0.0, 0.0, 0.0]),
        NO_AXIS,
        false,
        false,
    )
}

#[test]
fn velocity_residual_has_no_event_and_unknown_or_invalid_inputs_can_retry() {
    let mut cache = EntityProducerCache::new();
    cache.reset_scope(10);
    let identity = EntityIdentity::new(10, 4);
    let residual_token = token(10, "motion:1");
    assert!(cache
        .apply_velocity_residual(10, residual_token.clone(), identity, vec3([1.0, 2.0, 3.0]))
        .is_none());
    assert!(spawn(&mut cache, 10, "motion:add", snapshot(10, 4, 4.0)).is_some());
    let updated = cache
        .apply_velocity_residual(10, residual_token.clone(), identity, vec3([1.0, 2.0, 3.0]))
        .expect("known SetEntityMotion should update the shadow");
    assert_eq!(axes(updated.velocity), [1.0, 2.0, 3.0]);
    assert!(cache
        .apply_velocity_residual(10, residual_token, identity, vec3([9.0, 9.0, 9.0]))
        .is_none());
    let retry_motion_token = token(10, "motion:retry");
    assert!(cache
        .apply_velocity_residual(
            10,
            retry_motion_token.clone(),
            identity,
            vec3([f64::NAN, f64::INFINITY, 0.0]),
        )
        .is_none());
    assert_eq!(
        axes(
            cache
                .apply_velocity_residual(
                    10,
                    retry_motion_token,
                    identity,
                    vec3([4.0, 5.0, 6.0]),
                )
                .expect("finite SetEntityMotion retry")
                .velocity
        ),
        [4.0, 5.0, 6.0]
    );

    let teleport_identity = EntityIdentity::new(10, 8);
    assert!(spawn(&mut cache, 10, "teleport:finite:add", snapshot(10, 8, 8.0)).is_some());
    let teleport_token = token(10, "teleport:finite:retry");
    assert!(apply_move(
        &mut cache,
        10,
        teleport_token.clone(),
        plain_teleport(teleport_identity, [f64::INFINITY, 70.0, 0.0]),
    )
    .is_none());
    assert!(apply_move(
        &mut cache,
        10,
        teleport_token,
        plain_teleport(teleport_identity, [18.0, 70.0, 0.0]),
    )
    .is_some());

    let rotate_identity = EntityIdentity::new(10, 9);
    let rotate_token = token(10, "rotate:unknown:retry");
    assert!(apply_move(
        &mut cache,
        10,
        rotate_token.clone(),
        EntityMovePatch::rotate_head(rotate_identity, 32),
    )
    .is_none());
    assert!(spawn(&mut cache, 10, "rotate:unknown:add", snapshot(10, 9, 9.0)).is_some());
    let Some(NormalizedEntityEvent::Moved { entity }) = apply_move(
        &mut cache,
        10,
        rotate_token,
        EntityMovePatch::rotate_head(rotate_identity, 32),
    ) else {
        panic!("unknown RotateHead should retry after Spawn");
    };
    assert_eq!(entity.head_yaw.map(value), Some(compact_rotation_radians(32)));

    let mut invalid = snapshot(10, 5, 5.0);
    invalid.position.x = double(f64::NAN);
    assert!(spawn(&mut cache, 10, "finite:retry", invalid).is_none());
    let mut retry = snapshot(10, 5, f64::MAX);
    retry.yaw = double(12.0);
    assert!(spawn(&mut cache, 10, "finite:retry", retry).is_some());
    let mut invalid_scalar = snapshot(10, 6, 6.0);
    invalid_scalar.yaw = double(f64::NAN);
    assert!(spawn(&mut cache, 10, "finite:scalar", invalid_scalar).is_none());
    assert!(spawn(&mut cache, 10, "finite:scalar", snapshot(10, 6, 6.0)).is_some());
}

#[test]
fn packet_tokens_are_written_with_their_number_and_kind() {
    assert_eq!(
        TokenName::Packet { admission: 12, kind: PacketKind::MovePosRot }.text(),
        "packet-admission:12:move-pos-rot"
    );
    assert_eq!(
        TokenName::Removal { admission: 3, id: -7, index: 2 }.text(),
        "packet-admission:3:remove:MinecraftEntityId(-7):2"
    );
}

#[test]
fn a_named_token_with_the_text_of_a_packet_token_is_its_repetition() {
    let mut cache = EntityProducerCache::new();
    cache.reset_scope(1);
    let packet = EntityProducerToken {
        epoch: 1,
        name: TokenName::Packet { admission: 4, kind: PacketKind::Add },
    };
    assert!(cache
        .apply(1, EntityProducerInput::Spawn { token: packet, snapshot: snapshot(1, 7, 1.0) })
        .is_some());
    assert!(spawn(&mut cache, 1, "packet-admission:4:add", snapshot(1, 8, 1.0)).is_none());
}

#[test]
fn a_removal_reports_the_latest_state_and_is_the_last_word() {
    let mut cache = EntityProducerCache::new();
    cache.reset_scope(1);
    let identity = EntityIdentity::new(1, 7);
    assert!(spawn(&mut cache, 1, "spawn", snapshot(1, 7, 0.0)).is_some());
    assert!(spawn(&mut cache, 1, "other", snapshot(1, 8, 0.0)).is_some());
    let updated = EntityProducerInput::Update {
        token: token(1, "update"),
        snapshot: snapshot(1, 7, 4.0),
    };
    assert!(cache.apply(1, updated).is_some());
    let latest = cache
        .apply_velocity_residual(1, token(1, "velocity"), identity, vec3([1.0, 2.0, 3.0]))
        .expect("velocity");
    let removed = remove(&mut cache, 1, "remove", identity).expect("removal");
    assert_eq!(removed.removal_reason(), Some(EntityRemovalReason::ProtocolRemoved));
    match removed {
        NormalizedEntityEvent::Removed { entity, last } => {
            assert_eq!(entity, identity);
            assert_eq!(last, latest);
        }
        other => panic!("expected a removal, got {other:?}"),
    }
    assert_eq!(remove(&mut cache, 1, "again", identity), None);
    assert!(cache
        .apply_velocity_residual(1, token(1, "late"), identity, vec3([0.0, 0.0, 0.0]))
        .is_none());
    assert!(remove(&mut cache, 1, "last", EntityIdentity::new(1, 8)).is_some());
}

#[test]
fn a_negative_count_is_kept_but_not_reported() {
    let mut state = snapshot(1, 7, 0.0);
    let item = |count: i64| {
        Arc::new(vec![EntityEquipment { slot: 0, item_name: "stone".to_owned(), count }])
    };
    state.equipment = item(-1);
    assert!(state.is_representable());
    assert!(!state.is_publishable());
    state.equipment = item(1);
    assert!(state.is_publishable());
    state.equipment = item(i64::from(i32::MAX) + 1);
    assert!(!state.is_representable());
}
