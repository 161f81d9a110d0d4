//! From the packets of the game to the state of the runtime.
//!
//! Packets arrive in the order in which the connection reads them. Each is
//! stamped when it arrives; only packets of the current owner count.

use std::sync::Arc;

use vstd::prelude::*;
use vstd::string::*;

use crate::contract::{BackendEventPayload, BackendLifecyclePayload, FactSource, SoundEvent};
use crate::entity_events::{
    AxisFlags, AxisSteps, CompactLook, EntityEquipment, EntityIdentity, EntityMovePatch,
    EntityPose, EntityProducerInput, EntityProducerToken, MoveArithmetic,
    NormalizedEntitySnapshot, PacketKind, TokenName, WideLook,
};
use crate::frame::AttributeReading;
use crate::lanes::successor;
use crate::light::{LightSectionGeometry, LightUpdateData};
use crate::number::{Double, Vec3Value};
use crate::state::{CanonicalSourceAdmission, RuntimeCounters, RuntimeView, SharedRuntime};
use crate::time::UtcInstant;
use crate::tracking::EntityResidualAction;

verus! {

/// A tag of the dimension's data, as far as it is told apart.
#[derive(Clone, Copy, Debug, PartialEq, Eq, Structural)]
pub enum DimensionTag {
    Byte(i8),
    Other,
}

/// The sky light that the dimension's data proves: only a byte that is zero or
/// one says anything.
pub open spec fn proven_skylight(tag: Option<DimensionTag>) -> Option<bool> {
    match tag {
        Some(DimensionTag::Byte(value)) => if value == 0 {
            Some(false)
        } else if value == 1 {
            Some(true)
        } else {
            None
        },
        _ => None,
    }
}

/// The sky light that the dimension's data proves.
pub fn prove_has_skylight(tag: Option<DimensionTag>) -> (proven: Option<bool>)
    ensures
        proven == proven_skylight(tag),
{
    match tag {
        Some(DimensionTag::Byte(value)) => if value == 0 {
            Some(false)
        } else if value == 1 {
            Some(true)
        } else {
            None
        },
        _ => None,
    }
}

/// A packet may be about another entity: the player's own id is known, and it
/// is a different one.
pub open spec fn non_local(local_protocol_id: Option<i32>, target_id: i32) -> bool {
    local_protocol_id is Some && local_protocol_id != Some(target_id)
}

/// Tells whether a packet is provably about another entity than the player.
pub fn is_admitted_non_local_entity(local_protocol_id: Option<i32>, target_id: i32) -> (r: bool)
    ensures
        r == non_local(local_protocol_id, target_id),
{
    match local_protocol_id {
        Some(local_id) => local_id != target_id,
        None => false,
    }
}

/// A sound that is worth reporting: it has a name, a volume that is not
/// negative and a pitch.
pub open spec fn audible(sound: SoundEvent) -> bool {
    &&& sound.sound_name@.len() > 0
    &&& sound.volume.finite()
    &&& sound.volume.not_below_zero()
    &&& sound.pitch.finite()
}

/// Tells whether a sound is worth reporting.
pub fn canonical_sound_packet(sound: &SoundEvent) -> (r: bool)
    ensures
        r == audible(*sound),
{
    sound.sound_name.as_str().unicode_len() > 0 && sound.volume.is_finite()
        && sound.volume.is_not_below_zero() && sound.pitch.is_finite()
}

/// An entity that a packet introduces.
#[derive(Debug, PartialEq, Eq)]
pub struct AddedEntity {
    pub id: i32,
    pub entity_type: String,
    pub uuid: String,
    pub position: Vec3Value,
    pub velocity: Vec3Value,
    pub yaw: Double,
    pub pitch: Double,
    pub head_yaw: Double,
    pub width: Double,
    pub height: Double,
}

/// A packet about one entity. Where a movement needs floating-point work, its
/// results come with the packet.
#[allow(inconsistent_fields)]
#[derive(Debug, PartialEq, Eq)]
pub enum EntityPacket {
    Add(AddedEntity),
    MovePos { id: i32, delta: AxisSteps, on_ground: bool, computed: MoveArithmetic },
    MovePosRot {
        id: i32,
        delta: AxisSteps,
        look: CompactLook,
        on_ground: bool,
        computed: MoveArithmetic,
    },
    MoveRot { id: i32, look: CompactLook, on_ground: bool, computed: MoveArithmetic },
    Teleport {
        id: i32,
        position: Vec3Value,
        look: WideLook,
        relative_position: AxisFlags,
        relative_yaw: bool,
        relative_pitch: bool,
        velocity: Vec3Value,
        relative_velocity: AxisFlags,
        rotate_velocity: bool,
        on_ground: bool,
        computed: MoveArithmetic,
    },
    PositionSync {
        id: i32,
        position: Vec3Value,
        look: WideLook,
        velocity: Vec3Value,
        on_ground: bool,
        computed: MoveArithmetic,
    },
    RotateHead { id: i32, head_yaw: i8, computed: MoveArithmetic },
    SetMotion { id: i32, velocity: Vec3Value },
}

/// A packet of the game, as far as the runtime tells packets apart. A packet
/// that removes entities comes apart into its entities: see [`RemovalPacket`].
#[derive(Debug, PartialEq, Eq)]
pub enum GamePacket {
    Sound(SoundEvent),
    /// A sound that an entity makes; it is not reported.
    SoundEntity,
    ForgetLevelChunk { x: i32, z: i32 },
    /// Light on its own.
    LightUpdate { x: i32, z: i32, data: LightUpdateData, geometry: Option<LightSectionGeometry> },
    /// Light that comes with a chunk and replaces what was known of it.
    LevelChunkWithLight {
        x: i32,
        z: i32,
        data: LightUpdateData,
        geometry: Option<LightSectionGeometry>,
    },
    Login { dimension: String, skylight: Option<DimensionTag> },
    Respawn { dimension: String, skylight: Option<DimensionTag> },
    UpdateAttributes { id: i32, readings: Vec<AttributeReading> },
    Entity(EntityPacket),
    /// Any other packet.
    Other,
}

/// A packet that removes entities, once its source is admitted and the packet
/// has its number. Its entities go one by one, so that whoever hears of one
/// removal still finds the entities that go after it.
#[derive(Clone, Copy, Debug, PartialEq, Eq, Structural)]
pub struct RemovalPacket {
    pub owner: u64,
    pub epoch: u64,
    pub admission: u64,
}

impl RemovalPacket {
    /// The input for the entity at one place of the packet.
    pub open spec fn input(self, index: u64, id: i32) -> EntityProducerInput {
        EntityProducerInput::Remove {
            token: EntityProducerToken {
                epoch: self.epoch,
                name: TokenName::Removal { admission: self.admission, id, index },
            },
            entity: EntityIdentity { epoch: self.epoch, protocol_id: id },
        }
    }
}

impl AddedEntity {
    /// The state in which an introduced entity starts: standing, not on the
    /// ground, and with nothing on it.
    pub open spec fn introduced(self, epoch: u64, bare: Arc<Vec<EntityEquipment>>) -> NormalizedEntitySnapshot {
        NormalizedEntitySnapshot {
            identity: EntityIdentity { epoch, protocol_id: self.id },
            entity_type: self.entity_type,
            uuid: Some(self.uuid),
            name: None,
            username: None,
            position: self.position,
            velocity: self.velocity,
            yaw: self.yaw,
            pitch: self.pitch,
            head_yaw: Some(self.head_yaw),
            width: self.width,
            height: self.height,
            on_ground: false,
            pose: Some(EntityPose::Standing),
            held_item_name: None,
            equipment: bare,
            valid: true,
        }
    }

    fn into_snapshot(self, epoch: u64, bare: Arc<Vec<EntityEquipment>>) -> (snapshot:
        NormalizedEntitySnapshot)
        ensures
            snapshot == self.introduced(epoch, bare),
    {
        NormalizedEntitySnapshot {
            identity: EntityIdentity::new(epoch, self.id),
            entity_type: self.entity_type,
            uuid: Some(self.uuid),
            name: None,
            username: None,
            position: self.position,
            velocity: self.velocity,
            yaw: self.yaw,
            pitch: self.pitch,
            head_yaw: Some(self.head_yaw),
            width: self.width,
            height: self.height,
            on_ground: false,
            pose: Some(EntityPose::Standing),
            held_item_name: None,
            equipment: bare,
            valid: true,
        }
    }
}

/// The token of a packet.
pub open spec fn packet_token(epoch: u64, admission: u64, kind: PacketKind) -> EntityProducerToken {
    EntityProducerToken { epoch, name: TokenName::Packet { admission, kind } }
}

fn token_of(epoch: u64, admission: u64, kind: PacketKind) -> (token: EntityProducerToken)
    ensures
        token == packet_token(epoch, admission, kind),
{
    EntityProducerToken { epoch, name: TokenName::Packet { admission, kind } }
}

impl EntityPacket {
    /// The entity that the packet is about.
    pub open spec fn target(self) -> i32 {
        match self {
            EntityPacket::Add(added) => added.id,
            EntityPacket::MovePos { id, .. } => id,
            EntityPacket::MovePosRot { id, .. } => id,
            EntityPacket::MoveRot { id, .. } => id,
            EntityPacket::Teleport { id, .. } => id,
            EntityPacket::PositionSync { id, .. } => id,
            EntityPacket::RotateHead { id, .. } => id,
            EntityPacket::SetMotion { id, .. } => id,
        }
    }

    fn target_id(&self) -> (id: i32)
        ensures
            id == self.target(),
    {
        match self {
            EntityPacket::Add(added) => added.id,
            EntityPacket::MovePos { id, .. } => *id,
            EntityPacket::MovePosRot { id, .. } => *id,
            EntityPacket::MoveRot { id, .. } => *id,
            EntityPacket::Teleport { id, .. } => *id,
            EntityPacket::PositionSync { id, .. } => *id,
            EntityPacket::RotateHead { id, .. } => *id,
            EntityPacket::SetMotion { id, .. } => *id,
        }
    }

    /// The movement that the packet describes, if it describes one.
    pub open spec fn movement(self, epoch: u64) -> Option<
        (PacketKind, EntityMovePatch, MoveArithmetic),
    > {
        let still = AxisFlags { x: false, y: false, z: false };
        let entity = EntityIdentity { epoch, protocol_id: self.target() };
        let unchanged = EntityMovePatch {
            entity,
            delta: None,
            compact_look: None,
            head_yaw: None,
            absolute_position: None,
            absolute_look: None,
            relative_position: still,
            relative_yaw: false,
            relative_pitch: false,
            velocity: None,
            relative_velocity: still,
            rotate_velocity: false,
            on_ground: None,
        };
        match self {
            EntityPacket::Add(_) => None,
            EntityPacket::SetMotion { .. } => None,
            EntityPacket::MovePos { delta, on_ground, computed, .. } => Some(
                (
                    PacketKind::MovePos,
                    EntityMovePatch { delta: Some(delta), on_ground: Some(on_ground), ..unchanged },
                    computed,
                ),
            ),
            EntityPacket::MovePosRot { delta, look, on_ground, computed, .. } => Some(
                (
                    PacketKind::MovePosRot,
                    EntityMovePatch {
                        delta: Some(delta),
                        compact_look: Some(look),
                        on_ground: Some(on_ground),
                        ..unchanged
                    },
                    computed,
                ),
            ),
            EntityPacket::MoveRot { look, on_ground, computed, .. } => Some(
                (
                    PacketKind::MoveRot,
                    EntityMovePatch {
                        compact_look: Some(look),
                        on_ground: Some(on_ground),
                        ..unchanged
                    },
                    computed,
                ),
            ),
            EntityPacket::Teleport {
                position,
                look,
                relative_position,
                relative_yaw,
                relative_pitch,
                velocity,
                relative_velocity,
                rotate_velocity,
                on_ground,
                computed,
                ..
            } => Some(
                (
                    PacketKind::Teleport,
                    EntityMovePatch {
                        absolute_position: Some(position),
                        absolute_look: Some(look),
                        relative_position,
                        relative_yaw,
                        relative_pitch,
                        velocity: Some(velocity),
                        relative_velocity,
                        rotate_velocity,
                        on_ground: Some(on_ground),
                        ..unchanged
                    },
                    computed,
                ),
            ),
            EntityPacket::PositionSync { position, look, velocity, on_ground, computed, .. } => Some(
                (
                    PacketKind::PositionSync,
                    EntityMovePatch {
                        absolute_position: Some(position),
                        absolute_look: Some(look),
                        velocity: Some(velocity),
                        on_ground: Some(on_ground),
                        ..unchanged
                    },
                    computed,
                ),
            ),
            EntityPacket::RotateHead { head_yaw, computed, .. } => Some(
                (
                    PacketKind::RotateHead,
                    EntityMovePatch { head_yaw: Some(head_yaw), ..unchanged },
                    computed,
                ),
            ),
        }
    }

    fn as_movement(&self, epoch: u64) -> (r: Option<(PacketKind, EntityMovePatch, MoveArithmetic)>)
        ensures
            r == self.movement(epoch),
    {
        let entity = EntityIdentity::new(epoch, self.target_id());
        match self {
            EntityPacket::Add(_) => None,
            EntityPacket::SetMotion { .. } => None,
            EntityPacket::MovePos { delta, on_ground, computed, .. } => Some(
                (
                    PacketKind::MovePos,
                    EntityMovePatch::relative(entity, Some(*delta), None, *on_ground),
                    *computed,
                ),
            ),
            EntityPacket::MovePosRot { delta, look, on_ground, computed, .. } => Some(
                (
                    PacketKind::MovePosRot,
                    EntityMovePatch::relative(entity, Some(*delta), Some(*look), *on_ground),
                    *computed,
                ),
            ),
            EntityPacket::MoveRot { look, on_ground, computed, .. } => Some(
                (
                    PacketKind::MoveRot,
                    EntityMovePatch::relative(entity, None, Some(*look), *on_ground),
                    *computed,
                ),
            ),
            EntityPacket::Teleport {
                position,
                look,
                relative_position,
                relative_yaw,
                relative_pitch,
                velocity,
                relative_velocity,
                rotate_velocity,
                on_ground,
                computed,
                ..
            } => Some(
                (
                    PacketKind::Teleport,
                    EntityMovePatch::teleport(
                        entity,
                        *position,
                        *look,
                        *relative_position,
                        *relative_yaw,
                        *relative_pitch,
                        *velocity,
                        *relative_velocity,
                        *rotate_velocity,
                        *on_ground,
                    ),
                    *computed,
                ),
            ),
            EntityPacket::PositionSync { position, look, velocity, on_ground, computed, .. } => Some(
                (
                    PacketKind::PositionSync,
                    EntityMovePatch::position_sync(entity, *position, *look, *velocity, *on_ground),
                    *computed,
                ),
            ),
            EntityPacket::RotateHead { head_yaw, computed, .. } => Some(
                (
                    PacketKind::RotateHead,
                    EntityMovePatch::rotate_head(entity, *head_yaw),
                    *computed,
                ),
            ),
        }
    }
}

/// What a movement does to the residuals of its entity: a teleport starts
/// afresh, a position sync brings its own, any other keeps what there is.
pub open spec fn residual_action(kind: PacketKind) -> EntityResidualAction {
    match kind {
        PacketKind::Teleport => EntityResidualAction::Clear,
        PacketKind::PositionSync => EntityResidualAction::Update,
        _ => EntityResidualAction::Retain,
    }
}

impl RuntimeView {
    pub open spec fn packet_numbered(self) -> RuntimeView {
        self.with_counters(
            RuntimeCounters {
                entity_packet_admission: successor(self.counters.entity_packet_admission),
                ..self.counters
            },
        )
    }

    /// A sound is reported, if its stamp still holds.
    pub open spec fn sound_heard(
        self,
        source: CanonicalSourceAdmission,
        sound: SoundEvent,
        at: UtcInstant,
    ) -> RuntimeView {
        if self.frame_open(source) {
            self.emitted(FactSource::ServerObserved, BackendEventPayload::Sound(sound), at)
        } else {
            self
        }
    }

    /// A packet about one entity, under the number of its admission.
    pub open spec fn entity_packet_taken(
        self,
        owner: u64,
        epoch: u64,
        admission: u64,
        packet: EntityPacket,
        bare: Arc<Vec<EntityEquipment>>,
        at: UtcInstant,
    ) -> RuntimeView {
        match packet {
            EntityPacket::Add(added) => self.entity_emitted(
                owner,
                epoch,
                EntityProducerInput::Spawn {
                    token: packet_token(epoch, admission, PacketKind::Add),
                    snapshot: added.introduced(epoch, bare),
                },
                EntityResidualAction::Clear,
                at,
            ).0,
            EntityPacket::SetMotion { id, velocity } => self.motion_observed(
                owner,
                epoch,
                packet_token(epoch, admission, PacketKind::SetMotion),
                EntityIdentity { epoch, protocol_id: id },
                velocity,
            ).0,
            _ => match packet.movement(epoch) {
                Some((kind, patch, computed)) => self.entity_emitted(
                    owner,
                    epoch,
                    EntityProducerInput::Move {
                        token: packet_token(epoch, admission, kind),
                        patch,
                        computed,
                    },
                    residual_action(kind),
                    at,
                ).0,
                None => self,
            },
        }
    }

    /// A removal packet arrives: it takes a number if its source is the owner's.
    pub open spec fn removal_admitted(
        self,
        entity: u64,
        attempt_token: u64,
    ) -> (RuntimeView, Option<RemovalPacket>) {
        match self.admitted_source(entity, Some(attempt_token)) {
            None => (self, None),
            Some(source) => (
                self.packet_numbered(),
                Some(
                    RemovalPacket {
                        owner: source.entity,
                        epoch: source.epoch,
                        admission: self.counters.entity_packet_admission,
                    },
                ),
            ),
        }
    }

    /// The entity at one place of a removal packet goes, unless it is the player.
    pub open spec fn entity_removed(
        self,
        packet: RemovalPacket,
        local_protocol_id: Option<i32>,
        index: u64,
        id: i32,
        at: UtcInstant,
    ) -> RuntimeView {
        if non_local(local_protocol_id, id) {
            self.entity_emitted(
                packet.owner,
                packet.epoch,
                packet.input(index, id),
                EntityResidualAction::Retain,
                at,
            ).0
        } else {
            self
        }
    }

    /// A packet of a stamped source that is no sound and no light.
    pub open spec fn source_packet_taken(
        self,
        source: CanonicalSourceAdmission,
        local_protocol_id: Option<i32>,
        packet: GamePacket,
        bare: Arc<Vec<EntityEquipment>>,
        at: UtcInstant,
    ) -> RuntimeView {
        let admission = self.counters.entity_packet_admission;
        match packet {
            GamePacket::UpdateAttributes { id, readings } => if local_protocol_id == Some(id) {
                self.armor_applied(source, readings@).0
            } else {
                self
            },
            GamePacket::Entity(packet) => if non_local(local_protocol_id, packet.target()) {
                self.packet_numbered().entity_packet_taken(
                    source.entity,
                    source.epoch,
                    admission,
                    packet,
                    bare,
                    at,
                )
            } else {
                self.packet_numbered()
            },
            _ => self.packet_numbered(),
        }
    }

    /// A login or a respawn of the source begins a new scope.
    pub open spec fn boundary_taken(
        self,
        source: CanonicalSourceAdmission,
        dimension: String,
        skylight: Option<DimensionTag>,
        at: UtcInstant,
    ) -> RuntimeView {
        self.scope_boundary(
            source.entity,
            source.epoch,
            Some(dimension),
            proven_skylight(skylight),
            at,
        )
    }

    pub open spec fn light_taken(
        self,
        source: CanonicalSourceAdmission,
        geometry: Option<LightSectionGeometry>,
        x: i32,
        z: i32,
        data: LightUpdateData,
        replace_chunk: bool,
    ) -> RuntimeView {
        match geometry {
            Some(geometry) => self.light_applied(source, geometry, x, z, data, replace_chunk),
            None => self,
        }
    }

    /// A packet arrives. Only packets of the current owner count.
    pub open spec fn packet_produced(
        self,
        entity: u64,
        attempt_token: u64,
        local_protocol_id: Option<i32>,
        packet: GamePacket,
        bare: Arc<Vec<EntityEquipment>>,
        at: UtcInstant,
    ) -> RuntimeView {
        match self.admitted_source(entity, Some(attempt_token)) {
            None => self,
            Some(source) => match packet {
                GamePacket::Sound(sound) => if audible(sound) {
                    self.sound_heard(source, sound, at)
                } else {
                    self
                },
                GamePacket::SoundEntity => self,
                GamePacket::ForgetLevelChunk { x, z } => self.light_chunk_removed(source, x, z),
                GamePacket::LightUpdate { x, z, data, geometry } => self.light_taken(
                    source,
                    geometry,
                    x,
                    z,
                    data,
                    false,
                ),
                GamePacket::LevelChunkWithLight { x, z, data, geometry } => self.light_taken(
                    source,
                    geometry,
                    x,
                    z,
                    data,
                    true,
                ),
                GamePacket::Login { dimension, skylight } => self.boundary_taken(
                    source,
                    dimension,
                    skylight,
                    at,
                ),
                GamePacket::Respawn { dimension, skylight } => self.boundary_taken(
                    source,
                    dimension,
                    skylight,
                    at,
                ),
                _ => self.source_packet_taken(source, local_protocol_id, packet, bare, at),
            },
        }
    }

    /// A respawn was asked for.
    pub open spec fn respawn_started(self, from_dimension: String, at: UtcInstant) -> RuntimeView {
        self.emitted_if_running(
            FactSource::Commanded,
            BackendEventPayload::Lifecycle(
                BackendLifecyclePayload::RespawnTransitionStarted { from_dimension },
            ),
            at,
        )
    }

    /// The dimension that a respawn leaves.
    pub open spec fn left_dimension(self) -> Seq<char> {
        match self.writer.dimension {
            Some(dimension) => dimension@,
            None => "unknown"@,
        }
    }
}

impl SharedRuntime {
    /// Reports a sound, if its stamp still holds.
    pub fn emit_canonical_sound(
        &mut self,
        source: CanonicalSourceAdmission,
        sound: SoundEvent,
        at: UtcInstant,
    )
        requires
            old(self)@.wf(),
        ensures
            final(self)@ == old(self)@.sound_heard(source, sound, at),
            final(self)@.wf(),
    {
        if self.canonical_source_still_valid(source) && self.command_execution_allowed() {
            self.emit(FactSource::ServerObserved, BackendEventPayload::Sound(sound), at);
        }
    }

    fn take_light(
        &mut self,
        source: CanonicalSourceAdmission,
        geometry: Option<LightSectionGeometry>,
        x: i32,
        z: i32,
        data: &LightUpdateData,
        replace_chunk: bool,
    )
        requires
            old(self)@.wf(),
        ensures
            final(self)@ == old(self)@.light_taken(source, geometry, x, z, *data, replace_chunk),
            final(self)@.wf(),
    {
        if let Some(geometry) = geometry {
            let _ = self.apply_light_packet(source, geometry, x, z, data, replace_chunk);
        }
    }

    fn take_boundary(
        &mut self,
        source: CanonicalSourceAdmission,
        dimension: String,
        skylight: Option<DimensionTag>,
        at: UtcInstant,
    )
        requires
            old(self)@.wf(),
        ensures
            final(self)@ == old(self)@.boundary_taken(source, dimension, skylight, at),
            final(self)@.wf(),
    {
        let has_skylight = prove_has_skylight(skylight);
        let _ = self.reset_entity_scope_for_owner_at_epoch_with_dimension_and_light(
            source.entity,
            source.epoch,
            Some(dimension),
            has_skylight,
            at,
        );
    }

    fn take_movement(
        &mut self,
        owner: u64,
        epoch: u64,
        admission: u64,
        movement: (PacketKind, EntityMovePatch, MoveArithmetic),
        at: UtcInstant,
    )
        requires
            old(self)@.wf(),
        ensures
            final(self)@ == old(self)@.entity_emitted(
                owner,
                epoch,
                EntityProducerInput::Move {
                    token: packet_token(epoch, admission, movement.0),
                    patch: movement.1,
                    computed: movement.2,
                },
                residual_action(movement.0),
                at,
            ).0,
            final(self)@.wf(),
    {
        let (kind, patch, computed) = movement;
        let action = match kind {
            PacketKind::Teleport => EntityResidualAction::Clear,
            PacketKind::PositionSync => EntityResidualAction::Update,
            _ => EntityResidualAction::Retain,
        };
        let _ = self.emit_entity_input_with_velocity_residual(
            owner,
            epoch,
            EntityProducerInput::Move { token: token_of(epoch, admission, kind), patch, computed },
            action,
            at,
        );
    }

    fn take_entity_packet(
        &mut self,
        owner: u64,
        epoch: u64,
        admission: u64,
        packet: EntityPacket,
        bare: Arc<Vec<EntityEquipment>>,
        at: UtcInstant,
    )
        requires
            old(self)@.wf(),
        ensures
            final(self)@ == old(self)@.entity_packet_taken(
                owner,
                epoch,
                admission,
                packet,
                bare,
                at,
            ),
            final(self)@.wf(),
    {
        match packet.as_movement(epoch) {
            Some(movement) => {
                self.take_movement(owner, epoch, admission, movement, at);
                return;
            },
            None => {},
        }
        match packet {
            EntityPacket::Add(added) => {
                let snapshot = added.into_snapshot(epoch, bare);
                let token = token_of(epoch, admission, PacketKind::Add);
                let _ = self.emit_entity_input(
                    owner,
                    epoch,
                    EntityProducerInput::Spawn { token, snapshot },
                    at,
                );
            },
            EntityPacket::SetMotion { id, velocity } => {
                let token = token_of(epoch, admission, PacketKind::SetMotion);
                let _ = self.emit_entity_motion_residual(
                    owner,
                    epoch,
                    token,
                    EntityIdentity::new(epoch, id),
                    velocity,
                );
            },
            _ => {},
        }
    }

    /// Admits a packet that removes entities, in the order in which the
    /// connection read it, and numbers it.
    pub fn admit_removal_packet(&mut self, entity: u64, attempt_token: u64) -> (packet: Option<
        RemovalPacket,
    >)
        requires
            old(self)@.wf(),
        ensures
            (final(self)@, packet) == old(self)@.removal_admitted(entity, attempt_token),
            final(self)@.wf(),
    {
        match self.admit_canonical_source_with_token(entity, Some(attempt_token)) {
            Some(source) => {
                let admission: u64 = self.next_entity_packet_admission();
                Some(RemovalPacket { owner: source.entity, epoch: source.epoch, admission })
            },
            None => None,
        }
    }

    /// Removes the entity at one place of an admitted packet.
    pub fn remove_packet_entity(
        &mut self,
        packet: RemovalPacket,
        local_protocol_id: Option<i32>,
        index: u64,
        id: i32,
        at: UtcInstant,
    )
        requires
            old(self)@.wf(),
        ensures
            final(self)@ == old(self)@.entity_removed(packet, local_protocol_id, index, id, at),
            final(self)@.wf(),
    {
        if is_admitted_non_local_entity(local_protocol_id, id) {
            let token = EntityProducerToken {
                epoch: packet.epoch,
                name: TokenName::Removal { admission: packet.admission, id, index },
            };
            let entity = EntityIdentity::new(packet.epoch, id);
            let _ = self.emit_entity_input_with_velocity_residual(
                packet.owner,
                packet.epoch,
                EntityProducerInput::Remove { token, entity },
                EntityResidualAction::Retain,
                at,
            );
        }
    }

    fn take_source_packet(
        &mut self,
        source: CanonicalSourceAdmission,
        local_protocol_id: Option<i32>,
        packet: GamePacket,
        bare: Arc<Vec<EntityEquipment>>,
        at: UtcInstant,
    )
        requires
            old(self)@.wf(),
        ensures
            final(self)@ == old(self)@.source_packet_taken(
                source,
                local_protocol_id,
                packet,
                bare,
                at,
            ),
            final(self)@.wf(),
    {
        match packet {
            GamePacket::UpdateAttributes { id, readings } => {
                let own = match local_protocol_id {
                    Some(local_id) => local_id == id,
                    None => false,
                };
                if own {
                    let _ = self.apply_armor_packet(source, &readings);
                }
            },
            GamePacket::Entity(packet) => {
                let admission: u64 = self.next_entity_packet_admission();
                if is_admitted_non_local_entity(local_protocol_id, packet.target_id()) {
                    self.take_entity_packet(
                        source.entity,
                        source.epoch,
                        admission,
                        packet,
                        bare,
                        at,
                    );
                }
            },
            _ => {
                let _ = self.next_entity_packet_admission();
            },
        }
    }

    /// Takes one packet in the order in which the connection read it.
    pub fn produce_entity_packet_event(
        &mut self,
        entity: u64,
        attempt_token: u64,
        local_protocol_id: Option<i32>,
        packet: GamePacket,
        at: UtcInstant,
    )
        requires
            old(self)@.wf(),
        ensures
            exists|bare: Arc<Vec<EntityEquipment>>|
                bare@.len() == 0 && final(self)@ == #[trigger] old(self)@.packet_produced(
                    entity,
                    attempt_token,
                    local_protocol_id,
                    packet,
                    bare,
                    at,
                ),
            final(self)@.wf(),
    {
        let bare: Arc<Vec<EntityEquipment>> = Arc::new(Vec::new());
        self.produce_packet(entity, attempt_token, local_protocol_id, packet, bare, at);
    }

    fn produce_packet(
        &mut self,
        entity: u64,
        attempt_token: u64,
        local_protocol_id: Option<i32>,
        packet: GamePacket,
        bare: Arc<Vec<EntityEquipment>>,
        at: UtcInstant,
    )
        requires
            old(self)@.wf(),
        ensures
            final(self)@ == old(self)@.packet_produced(
                entity,
                attempt_token,
                local_protocol_id,
                packet,
                bare,
                at,
            ),
            final(self)@.wf(),
    {
        let source = match self.admit_canonical_source_with_token(entity, Some(attempt_token)) {
            Some(source) => source,
            None => {
                return;
            },
        };
        match packet {
            GamePacket::Sound(sound) => {
                if canonical_sound_packet(&sound) {
                    self.emit_canonical_sound(source, sound, at);
                }
            },
            GamePacket::SoundEntity => {},
            GamePacket::ForgetLevelChunk { x, z } => {
                let _ = self.remove_light_chunk(source, x, z);
            },
            GamePacket::LightUpdate { x, z, data, geometry } => {
                self.take_light(source, geometry, x, z, &data, false);
            },
            GamePacket::LevelChunkWithLight { x, z, data, geometry } => {
                self.take_light(source, geometry, x, z, &data, true);
            },
            GamePacket::Login { dimension, skylight } => {
                self.take_boundary(source, dimension, skylight, at);
            },
            GamePacket::Respawn { dimension, skylight } => {
                self.take_boundary(source, dimension, skylight, at);
            },
            other => {
                self.take_source_packet(source, local_protocol_id, other, bare, at);
            },
        }
    }

    /// The connection is about to join: the reservation of the current epoch
    /// takes the token.
    pub fn admit_canonical_join_source(&mut self, attempt_token: u64) -> (admitted: bool)
        requires
            old(self)@.wf(),
        ensures
            admitted == old(self)@.join_admitted(old(self)@.epoch(), Some(attempt_token)),
            final(self)@ == old(self)@.joined(old(self)@.epoch(), Some(attempt_token)),
            final(self)@.wf(),
    {
        let source_epoch: u64 = self.connection_epoch();
        self.admit_canonical_join_started_with_token(source_epoch, Some(attempt_token))
    }

    /// Reports that a respawn was asked for. Only a later spawn confirms it.
    pub fn record_respawn_packet(&mut self, at: UtcInstant)
        requires
            old(self)@.wf(),
        ensures
            exists|from: String|
                from@ == old(self)@.left_dimension() && final(self)@ == (
                #[trigger] old(self)@.respawn_started(from, at)),
            final(self)@.wf(),
    {
        let from = match &self.writer.dimension {
            Some(dimension) => dimension.clone(),
            None => "unknown".to_owned(),
        };
        let ghost left = from;
        self.emit_respawn_transition_started(from, at);
        assert(self@ == old(self)@.respawn_started(left, at));
    }
}

/// A packet of anyone but the owner of the current attempt changes nothing, and
/// neither does one that carries the token of another attempt.
pub proof fn law_only_the_owners_packets_count(
    runtime: RuntimeView,
    entity: u64,
    attempt_token: u64,
    local_protocol_id: Option<i32>,
    packet: GamePacket,
    bare: Arc<Vec<EntityEquipment>>,
    at: UtcInstant,
)
    requires
        runtime.producer.owner != Some((entity, runtime.epoch()))
            || !runtime.producer.bindings.contains((attempt_token, runtime.epoch())),
    ensures
        runtime.packet_produced(entity, attempt_token, local_protocol_id, packet, bare, at)
            == runtime,
        runtime.removal_admitted(entity, attempt_token) == (runtime, None::<RemovalPacket>),
{
}

/// A removal that comes after the packet's owner has gone changes nothing, and
/// neither does the removal of the player.
pub proof fn law_removals_end_with_the_owner(
    runtime: RuntimeView,
    packet: RemovalPacket,
    local_protocol_id: Option<i32>,
    index: u64,
    id: i32,
    at: UtcInstant,
)
    requires
        runtime.producer.owner != Some((packet.owner, packet.epoch)) || local_protocol_id is None
            || local_protocol_id == Some(id),
    ensures
        runtime.entity_removed(packet, local_protocol_id, index, id, at) == runtime,
{
}

/// A packet about the player, or one that comes before the player's own id is
/// known, is never taken for another entity: it only uses up a number.
pub proof fn law_the_player_is_no_other_entity(
    runtime: RuntimeView,
    entity: u64,
    attempt_token: u64,
    local_protocol_id: Option<i32>,
    packet: EntityPacket,
    bare: Arc<Vec<EntityEquipment>>,
    at: UtcInstant,
)
    requires
        local_protocol_id is None || local_protocol_id == Some(packet.target()),
    ensures
        ({
            let after = runtime.packet_produced(
                entity,
                attempt_token,
                local_protocol_id,
                GamePacket::Entity(packet),
                bare,
                at,
            );
            after == runtime || after == runtime.packet_numbered()
        }),
{
}

/// Attributes of another entity never become the player's armor.
pub proof fn law_armor_is_the_players(
    runtime: RuntimeView,
    entity: u64,
    attempt_token: u64,
    local_protocol_id: Option<i32>,
    id: i32,
    readings: Vec<AttributeReading>,
    bare: Arc<Vec<EntityEquipment>>,
    at: UtcInstant,
)
    requires
        local_protocol_id != Some(id),
    ensures
        runtime.packet_produced(
            entity,
            attempt_token,
            local_protocol_id,
            GamePacket::UpdateAttributes { id, readings },
            bare,
            at,
        ) == runtime,
{
}

/// Sky light is proven by a byte that is zero or one, and by nothing else.
pub proof fn law_what_proves_skylight(tag: Option<DimensionTag>)
    ensures
        proven_skylight(tag) == Some(true) <==> tag == Some(DimensionTag::Byte(1)),
        proven_skylight(tag) == Some(false) <==> tag == Some(DimensionTag::Byte(0)),
{
}

/// A sound is reported exactly if it has a name, a volume that is a number and not
/// negative, and a pitch that is a number.
pub proof fn law_which_sounds_are_reported(sound: SoundEvent)
    ensures
        audible(sound) <==> sound.sound_name@.len() > 0 && sound.volume.finite()
            && sound.volume.not_below_zero() && sound.pitch.finite(),
{
}

/// An entity that is introduced starts standing, off the ground, with the bare
/// hands that it is given, where and how its packet says.
pub proof fn law_introduced_entities_start_bare(
    added: AddedEntity,
    epoch: u64,
    bare: Arc<Vec<EntityEquipment>>,
)
    ensures
        ({
            let state = added.introduced(epoch, bare);
            &&& state.identity.epoch == epoch
            &&& state.identity.protocol_id == added.id
            &&& state.entity_type == added.entity_type
            &&& state.uuid == Some(added.uuid)
            &&& state.name is None
            &&& state.username is None
            &&& state.position == added.position
            &&& state.velocity == added.velocity
            &&& state.yaw == added.yaw
            &&& state.pitch == added.pitch
            &&& state.head_yaw == Some(added.head_yaw)
            &&& state.width == added.width
            &&& state.height == added.height
            &&& !state.on_ground
            &&& state.pose is Some && state.pose->0 is Standing
            &&& state.held_item_name is None
            &&& state.equipment == bare
            &&& state.valid
        }),
{
}

/// Nothing is said of this part of a movement.
pub open spec fn unsaid(flags: AxisFlags) -> bool {
    !flags.x && !flags.y && !flags.z
}

/// A packet that steps, turns or both says just that of its entity: the step, the
/// look and the ground.
pub proof fn law_steps_and_turns_say_only_that(packet: EntityPacket, epoch: u64)
    ensures
        match packet {
            EntityPacket::MovePos { id, delta, on_ground, computed } => {
                &&& packet.movement(epoch) matches Some((kind, patch, arithmetic))
                &&& kind is MovePos
                &&& patch.delta == Some(delta)
                &&& patch.compact_look is None
                &&& patch.on_ground == Some(on_ground)
                &&& says_no_more(patch, epoch, id)
                &&& patch.head_yaw is None
                &&& arithmetic == computed
            },
            EntityPacket::MovePosRot { id, delta, look, on_ground, computed } => {
                &&& packet.movement(epoch) matches Some((kind, patch, arithmetic))
                &&& kind is MovePosRot
                &&& patch.delta == Some(delta)
                &&& patch.compact_look == Some(look)
                &&& patch.on_ground == Some(on_ground)
                &&& says_no_more(patch, epoch, id)
                &&& patch.head_yaw is None
                &&& arithmetic == computed
            },
            EntityPacket::MoveRot { id, look, on_ground, computed } => {
                &&& packet.movement(epoch) matches Some((kind, patch, arithmetic))
                &&& kind is MoveRot
                &&& patch.delta is None
                &&& patch.compact_look == Some(look)
                &&& patch.on_ground == Some(on_ground)
                &&& says_no_more(patch, epoch, id)
                &&& patch.head_yaw is None
                &&& arithmetic == computed
            },
            EntityPacket::RotateHead { id, head_yaw, computed } => {
                &&& packet.movement(epoch) matches Some((kind, patch, arithmetic))
                &&& kind is RotateHead
                &&& patch.delta is None
                &&& patch.compact_look is None
                &&& patch.on_ground is None
                &&& says_no_more(patch, epoch, id)
                &&& patch.head_yaw == Some(head_yaw)
                &&& arithmetic == computed
            },
            _ => true,
        },
{
}

/// Beyond a step, a compact look, a head turn and the ground nothing is said of
/// the entity.
pub open spec fn says_no_more(patch: EntityMovePatch, epoch: u64, id: i32) -> bool {
    &&& patch.entity.epoch == epoch
    &&& patch.entity.protocol_id == id
    &&& patch.absolute_position is None
    &&& patch.absolute_look is None
    &&& unsaid(patch.relative_position)
    &&& !patch.relative_yaw
    &&& !patch.relative_pitch
    &&& patch.velocity is None
    &&& unsaid(patch.relative_velocity)
    &&& !patch.rotate_velocity
}

/// A teleport says where the entity is, how it looks and moves, and what of that is
/// relative; a position sync says all of it absolutely.
pub proof fn law_teleports_and_syncs_say_everything(packet: EntityPacket, epoch: u64)
    ensures
        match packet {
            EntityPacket::Teleport {
                id,
                position,
                look,
                relative_position,
                relative_yaw,
                relative_pitch,
                velocity,
                relative_velocity,
                rotate_velocity,
                on_ground,
                computed,
            } => {
                &&& packet.movement(epoch) matches Some((kind, patch, arithmetic))
                &&& kind is Teleport
                &&& patch.entity.epoch == epoch
                &&& patch.entity.protocol_id == id
                &&& patch.delta is None
                &&& patch.compact_look is None
                &&& patch.head_yaw is None
                &&& patch.absolute_position == Some(position)
                &&& patch.absolute_look == Some(look)
                &&& patch.relative_position == relative_position
                &&& patch.relative_yaw == relative_yaw
                &&& patch.relative_pitch == relative_pitch
                &&& patch.velocity == Some(velocity)
                &&& patch.relative_velocity == relative_velocity
                &&& patch.rotate_velocity == rotate_velocity
                &&& patch.on_ground == Some(on_ground)
                &&& arithmetic == computed
            },
            EntityPacket::PositionSync { id, position, look, velocity, on_ground, computed } => {
                &&& packet.movement(epoch) matches Some((kind, patch, arithmetic))
                &&& kind is PositionSync
                &&& patch.entity.epoch == epoch
                &&& patch.entity.protocol_id == id
                &&& patch.delta is None
                &&& patch.compact_look is None
                &&& patch.head_yaw is None
                &&& patch.absolute_position == Some(position)
                &&& patch.absolute_look == Some(look)
                &&& unsaid(patch.relative_position)
                &&& !patch.relative_yaw
                &&& !patch.relative_pitch
                &&& patch.velocity == Some(velocity)
                &&& unsaid(patch.relative_velocity)
                &&& !patch.rotate_velocity
                &&& patch.on_ground == Some(on_ground)
                &&& arithmetic == computed
            },
            EntityPacket::Add(_) => packet.movement(epoch) is None,
            EntityPacket::SetMotion { .. } => packet.movement(epoch) is None,
            _ => true,
        },
{
}

/// Every packet is about the entity that it names.
pub proof fn law_packets_are_about_their_entity(packet: EntityPacket, epoch: u64)
    ensures
        packet matches EntityPacket::Add(added) ==> packet.target() == added.id,
        packet matches EntityPacket::SetMotion { id, .. } ==> packet.target() == id,
        packet.movement(epoch) matches Some((_, patch, _)) ==> packet.target()
            == patch.entity.protocol_id,
        packet matches EntityPacket::MovePos { id, .. } ==> packet.target() == id,
        packet matches EntityPacket::Teleport { id, .. } ==> packet.target() == id,
{
}

/// A teleport ends what was remembered of its entity, a position sync replaces it,
/// and any other movement leaves it.
pub proof fn law_what_movements_do_to_memories(kind: PacketKind)
    ensures
        residual_action(kind) is Clear <==> kind is Teleport,
        residual_action(kind) is Update <==> kind is PositionSync,
        residual_action(kind) is Retain <==> !(kind is Teleport) && !(kind is PositionSync),
{
}

/// A packet about an entity becomes one observation under its own token: an
/// introduction, a new velocity or a movement.
pub proof fn law_entity_packets_become_observations(
    runtime: RuntimeView,
    owner: u64,
    epoch: u64,
    admission: u64,
    packet: EntityPacket,
    bare: Arc<Vec<EntityEquipment>>,
    at: UtcInstant,
)
    ensures
        ({
            let after = runtime.entity_packet_taken(owner, epoch, admission, packet, bare, at);
            &&& packet matches EntityPacket::Add(added) ==> after == runtime.entity_emitted(
                owner,
                epoch,
                EntityProducerInput::Spawn {
                    token: EntityProducerToken {
                        epoch,
                        name: TokenName::Packet { admission, kind: PacketKind::Add },
                    },
                    snapshot: added.introduced(epoch, bare),
                },
                EntityResidualAction::Clear,
                at,
            ).0
            &&& packet matches EntityPacket::SetMotion { id, velocity } ==> after
                == runtime.motion_observed(
                owner,
                epoch,
                EntityProducerToken {
                    epoch,
                    name: TokenName::Packet { admission, kind: PacketKind::SetMotion },
                },
                EntityIdentity { epoch, protocol_id: id },
                velocity,
            ).0
            &&& packet.movement(epoch) matches Some((kind, patch, computed)) ==> after
                == runtime.entity_emitted(
                owner,
                epoch,
                EntityProducerInput::Move {
                    token: EntityProducerToken {
                        epoch,
                        name: TokenName::Packet { admission, kind },
                    },
                    patch,
                    computed,
                },
                residual_action(kind),
                at,
            ).0
        }),
{
}

/// A removal packet of the owner takes the next number; each of its entities goes
/// under a token of its own, but never the player.
pub proof fn law_removals_are_numbered(
    runtime: RuntimeView,
    entity: u64,
    token: u64,
    local_protocol_id: Option<i32>,
    index: u64,
    id: i32,
    at: UtcInstant,
)
    requires
        runtime.counters.entity_packet_admission < u64::MAX,
    ensures
        ({
            let own = runtime.producer.owner == Some((entity, runtime.writer.connection_epoch))
                && runtime.producer.bindings.contains((token, runtime.writer.connection_epoch));
            let number = runtime.counters.entity_packet_admission;
            let (after, packet) = runtime.removal_admitted(entity, token);
            &&& packet is Some <==> own
            &&& !own ==> after == runtime
            &&& packet matches Some(removal) ==> {
                &&& removal.owner == entity
                &&& removal.epoch == runtime.writer.connection_epoch
                &&& removal.admission == number
                &&& after == (RuntimeView {
                    counters: RuntimeCounters {
                        entity_packet_admission: (number + 1) as u64,
                        ..runtime.counters
                    },
                    ..runtime
                })
                &&& removal.input(index, id) == (EntityProducerInput::Remove {
                    token: EntityProducerToken {
                        epoch: removal.epoch,
                        name: TokenName::Removal { admission: number, id, index },
                    },
                    entity: EntityIdentity { epoch: removal.epoch, protocol_id: id },
                })
                &&& local_protocol_id is None || local_protocol_id == Some(id)
                    ==> runtime.entity_removed(removal, local_protocol_id, index, id, at) == runtime
                &&& local_protocol_id is Some && local_protocol_id != Some(id)
                    ==> runtime.entity_removed(removal, local_protocol_id, index, id, at)
                    == runtime.entity_emitted(
                    entity,
                    removal.epoch,
                    removal.input(index, id),
                    EntityResidualAction::Retain,
                    at,
                ).0
            }
        }),
{
}

/// Each packet of the owner does its own part: a sound that can be heard is
/// reported, a chunk's light is taken or forgotten, a login and a respawn begin a
/// new scope, and a sound of an entity does nothing. Light that comes with a chunk
/// replaces what was known of it.
pub proof fn law_each_packet_does_its_part(
    runtime: RuntimeView,
    entity: u64,
    token: u64,
    local_protocol_id: Option<i32>,
    packet: GamePacket,
    bare: Arc<Vec<EntityEquipment>>,
    at: UtcInstant,
)
    requires
        runtime.producer.owner == Some((entity, runtime.writer.connection_epoch)),
        runtime.producer.bindings.contains((token, runtime.writer.connection_epoch)),
    ensures
        ({
            let source = CanonicalSourceAdmission {
                entity,
                epoch: runtime.writer.connection_epoch,
                scope_generation: runtime.producer.scope_generation,
                attempt_token: Some(token),
            };
            let after = runtime.packet_produced(
                entity,
                token,
                local_protocol_id,
                packet,
                bare,
                at,
            );
            match packet {
                GamePacket::Sound(sound) => after == (if audible(sound) && !runtime.flags.stopping
                    && !runtime.flags.disconnect_reported {
                    runtime.emitted(
                        FactSource::ServerObserved,
                        BackendEventPayload::Sound(sound),
                        at,
                    )
                } else {
                    runtime
                }),
                GamePacket::SoundEntity => after == runtime,
                GamePacket::ForgetLevelChunk { x, z } => after == runtime.light_chunk_removed(
                    source,
                    x,
                    z,
                ),
                GamePacket::LightUpdate { x, z, data, geometry } => after == (
                if geometry is Some {
                    runtime.light_applied(source, geometry->0, x, z, data, false)
                } else {
                    runtime
                }),
                GamePacket::LevelChunkWithLight { x, z, data, geometry } => after == (
                if geometry is Some {
                    runtime.light_applied(source, geometry->0, x, z, data, true)
                } else {
                    runtime
                }),
                GamePacket::Login { dimension, skylight } => after == runtime.scope_boundary(
                    entity,
                    source.epoch,
                    Some(dimension),
                    proven_skylight(skylight),
                    at,
                ),
                GamePacket::Respawn { dimension, skylight } => after == runtime.scope_boundary(
                    entity,
                    source.epoch,
                    Some(dimension),
                    proven_skylight(skylight),
                    at,
                ),
                GamePacket::UpdateAttributes { id, readings } => after == (if local_protocol_id
                    == Some(id) {
                    runtime.armor_applied(source, readings@).0
                } else {
                    runtime
                }),
                GamePacket::Entity(about) => after == (if local_protocol_id is Some
                    && local_protocol_id != Some(about.target()) {
                    runtime.packet_numbered().entity_packet_taken(
                        entity,
                        source.epoch,
                        runtime.counters.entity_packet_admission,
                        about,
                        bare,
                        at,
                    )
                } else {
                    runtime.packet_numbered()
                }),
                GamePacket::Other => after == runtime.packet_numbered(),
            }
        }),
{
}

/// A respawn that is asked for is told with the dimension that it leaves, as long
/// as the runtime runs; an unknown dimension is called so.
pub proof fn law_a_respawn_tells_what_it_leaves(
    runtime: RuntimeView,
    from_dimension: String,
    at: UtcInstant,
)
    ensures
        !runtime.flags.stopping && !runtime.flags.disconnect_reported ==> runtime.respawn_started(
            from_dimension,
            at,
        ) == runtime.emitted(
            FactSource::Commanded,
            BackendEventPayload::Lifecycle(
                BackendLifecyclePayload::RespawnTransitionStarted { from_dimension },
            ),
            at,
        ),
        runtime.flags.stopping || runtime.flags.disconnect_reported ==> runtime.respawn_started(
            from_dimension,
            at,
        ) == runtime,
        runtime.writer.dimension matches Some(dimension) ==> runtime.left_dimension()
            == dimension@,
        runtime.writer.dimension is None ==> runtime.left_dimension() == "unknown"@,
{
}

} // verus!
