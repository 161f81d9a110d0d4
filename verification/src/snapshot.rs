//! Snapshots of the world around the bot, as the runtime captures them.

use std::sync::Arc;

use vstd::prelude::*;

use crate::contract::AttemptId;
use crate::number::{Single, Vec3Value};
use crate::time::UtcInstant;

verus! {

/// The world that the bot is in.
#[derive(Debug, PartialEq, Eq)]
pub struct WorldSnapshot {
    pub world_id: String,
    pub dimension: String,
    pub minecraft_version: String,
    pub protocol_version: i32,
    pub game_mode: String,
    pub min_y: i32,
    pub height: u32,
}

/// Experience of the bot.
#[derive(Clone, Copy, Debug, PartialEq, Eq, Structural)]
pub struct ExperienceSnapshot {
    pub level: u32,
    pub progress: Single,
    pub total: u32,
}

/// The bot itself.
#[derive(Debug, PartialEq, Eq)]
pub struct SelfSnapshot {
    pub entity_key: String,
    pub username: String,
    pub position: Vec3Value,
    pub velocity: Vec3Value,
    pub yaw: Single,
    pub pitch: Single,
    pub on_ground: bool,
    pub alive: bool,
    pub health: Single,
    pub food: u32,
    pub food_saturation: Single,
    pub experience: ExperienceSnapshot,
}

impl Clone for SelfSnapshot {
    fn clone(&self) -> (r: Self)
        ensures
            r == *self,
    {
        SelfSnapshot {
            entity_key: self.entity_key.clone(),
            username: self.username.clone(),
            position: self.position,
            velocity: self.velocity,
            yaw: self.yaw,
            pitch: self.pitch,
            on_ground: self.on_ground,
            alive: self.alive,
            health: self.health,
            food: self.food,
            food_saturation: self.food_saturation,
            experience: self.experience,
        }
    }
}

/// One inventory slot that is not empty.
#[derive(Debug, PartialEq, Eq)]
pub struct InventorySlotSnapshot {
    pub slot: u64,
    pub item_name: String,
    pub count: i32,
}

/// The bot's inventory.
#[derive(Debug, PartialEq, Eq)]
pub struct InventorySnapshot {
    pub selected_hotbar_slot: u8,
    pub slots: Vec<InventorySlotSnapshot>,
}

/// A player that the server lists.
#[derive(Debug, PartialEq, Eq)]
pub struct TrackedPlayerSnapshot {
    pub player_key: String,
    pub uuid: String,
    pub username: String,
    pub listed: bool,
    pub entity_tracked: bool,
    pub position: Option<Vec3Value>,
    pub yaw: Option<Single>,
    pub pitch: Option<Single>,
}

impl Clone for TrackedPlayerSnapshot {
    fn clone(&self) -> (r: Self)
        ensures
            r == *self,
    {
        TrackedPlayerSnapshot {
            player_key: self.player_key.clone(),
            uuid: self.uuid.clone(),
            username: self.username.clone(),
            listed: self.listed,
            entity_tracked: self.entity_tracked,
            position: self.position,
            yaw: self.yaw,
            pitch: self.pitch,
        }
    }
}

/// One coherent capture of the world around the bot.
#[derive(Debug, PartialEq, Eq)]
pub struct MinecraftSnapshotV1 {
    pub snapshot_revision: u64,
    pub lifecycle_revision: u64,
    pub captured_at: UtcInstant,
    pub process_session_id: String,
    pub connection_epoch: u64,
    pub connection_attempt_id: AttemptId,
    pub world: WorldSnapshot,
    pub self_snapshot: SelfSnapshot,
    pub inventory: InventorySnapshot,
    pub tracked_players: Vec<TrackedPlayerSnapshot>,
}

/// Where the bot is and how it moves.
#[derive(Clone, Copy, Debug, PartialEq, Eq)]
pub struct PoseSnapshot {
    pub position: Vec3Value,
    pub velocity: Vec3Value,
    pub yaw: Single,
    pub pitch: Single,
    pub on_ground: bool,
}

impl MinecraftSnapshotV1 {
    pub open spec fn spec_pose(self) -> PoseSnapshot {
        PoseSnapshot {
            position: self.self_snapshot.position,
            velocity: self.self_snapshot.velocity,
            yaw: self.self_snapshot.yaw,
            pitch: self.self_snapshot.pitch,
            on_ground: self.self_snapshot.on_ground,
        }
    }

    /// The pose of the bot in this capture.
    pub fn pose(&self) -> (pose: PoseSnapshot)
        ensures
            pose == self.spec_pose(),
    {
        PoseSnapshot {
            position: self.self_snapshot.position,
            velocity: self.self_snapshot.velocity,
            yaw: self.self_snapshot.yaw,
            pitch: self.self_snapshot.pitch,
            on_ground: self.self_snapshot.on_ground,
        }
    }
}

/// A block's place in the world.
#[derive(Clone, Copy, Debug, PartialEq, Eq, Structural)]
pub struct BlockPosition {
    pub x: i32,
    pub y: i32,
    pub z: i32,
}

/// Whether a block fills its cell.
#[derive(Clone, Copy, Debug, PartialEq, Eq, Structural)]
pub enum BlockBoundingBox {
    Block,
    Empty,
}

/// A box that a block collides with, relative to the block.
#[derive(Clone, Copy, Debug, PartialEq, Eq)]
pub struct CollisionBox {
    pub min: Vec3Value,
    pub max: Vec3Value,
}

/// A block as the world stores it.
#[derive(Debug, PartialEq, Eq)]
pub struct StoredBlock {
    pub name: String,
    pub state_id: u32,
    /// The block's properties as the game writes them.
    pub properties: Vec<(String, String)>,
    pub collision_shapes: Vec<CollisionBox>,
    pub transparent_hint: bool,
    pub bounding_box: BlockBoundingBox,
}

/// The state of one block.
#[derive(Debug, PartialEq, Eq)]
pub struct ProtocolBlockSnapshot {
    pub position: BlockPosition,
    pub name: String,
    pub state_id: u32,
    pub properties: Vec<(String, String)>,
    pub collision_shapes: Vec<CollisionBox>,
    pub transparent_hint: bool,
    pub bounding_box: BlockBoundingBox,
}

impl StoredBlock {
    /// The stored block as the block at a position.
    pub open spec fn placed(self, position: BlockPosition) -> ProtocolBlockSnapshot {
        ProtocolBlockSnapshot {
            position,
            name: self.name,
            state_id: self.state_id,
            properties: self.properties,
            collision_shapes: self.collision_shapes,
            transparent_hint: self.transparent_hint,
            bounding_box: self.bounding_box,
        }
    }
}

fn block_snapshot(position: BlockPosition, stored: StoredBlock) -> (block: ProtocolBlockSnapshot)
    ensures
        block == stored.placed(position),
{
    ProtocolBlockSnapshot {
        position,
        name: stored.name,
        state_id: stored.state_id,
        properties: stored.properties,
        collision_shapes: stored.collision_shapes,
        transparent_hint: stored.transparent_hint,
        bounding_box: stored.bounding_box,
    }
}

/// What is known of one block.
#[derive(Debug, PartialEq, Eq)]
pub enum BlockReadResult {
    Loaded { block: ProtocolBlockSnapshot },
    Unloaded,
    OutOfWorld,
}

/// A position lies between the bottom and the top of the world.
pub open spec fn inside_world(y: i32, min_y: i32, height: u32) -> bool {
    min_y <= y < min_y + height
}

/// What is known of the block at a position of a world of known height, given
/// what the world's storage holds there; it counts only inside the world.
pub open spec fn block_at(
    position: BlockPosition,
    min_y: i32,
    height: u32,
    stored: Option<StoredBlock>,
) -> BlockReadResult {
    if !inside_world(position.y, min_y, height) {
        BlockReadResult::OutOfWorld
    } else {
        match stored {
            Some(found) => BlockReadResult::Loaded { block: found.placed(position) },
            None => BlockReadResult::Unloaded,
        }
    }
}

/// Reads one block of a world of known height. What the world's storage holds
/// at the position is given; it counts only inside the world.
pub fn read_block_from_world(
    position: BlockPosition,
    min_y: i32,
    height: u32,
    stored: Option<StoredBlock>,
) -> (r: BlockReadResult)
    ensures
        r == block_at(position, min_y, height, stored),
        r matches BlockReadResult::Loaded { block } ==> block.position == position,
{
    let y: i64 = position.y as i64;
    let bottom: i64 = min_y as i64;
    let top: i64 = bottom + height as i64;
    if y < bottom || y >= top {
        return BlockReadResult::OutOfWorld;
    }
    match stored {
        Some(found) => BlockReadResult::Loaded { block: block_snapshot(position, found) },
        None => BlockReadResult::Unloaded,
    }
}

/// The pose of a snapshot is where and how the player stands in it.
pub proof fn law_the_pose_is_the_players(snapshot: MinecraftSnapshotV1)
    ensures
        snapshot.spec_pose().position == snapshot.self_snapshot.position,
        snapshot.spec_pose().velocity == snapshot.self_snapshot.velocity,
        snapshot.spec_pose().yaw == snapshot.self_snapshot.yaw,
        snapshot.spec_pose().pitch == snapshot.self_snapshot.pitch,
        snapshot.spec_pose().on_ground == snapshot.self_snapshot.on_ground,
{
}

/// A block is in the world from its lowest layer up to, but not including, the one
/// that many layers higher as the world is high. There it is what is stored, at
/// the position that was asked for, or unloaded; anywhere else it is out of the
/// world, whatever is stored.
pub proof fn law_blocks_are_in_the_world_or_not(
    position: BlockPosition,
    min_y: i32,
    height: u32,
    stored: Option<StoredBlock>,
)
    ensures
        ({
            let read = block_at(position, min_y, height, stored);
            let inside = min_y <= position.y && position.y <= min_y + height - 1;
            &&& read is OutOfWorld <==> !inside
            &&& read is Unloaded <==> inside && stored is None
            &&& inside && stored is Some ==> {
                &&& read matches BlockReadResult::Loaded { block }
                &&& block.position == position
                &&& block.name == (stored->0).name
                &&& block.state_id == (stored->0).state_id
                &&& block.properties == (stored->0).properties
                &&& block.collision_shapes == (stored->0).collision_shapes
                &&& block.transparent_hint == (stored->0).transparent_hint
                &&& block.bounding_box == (stored->0).bounding_box
            }
        }),
{
}

} // verus!
