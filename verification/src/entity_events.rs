//! Entity producer normalization and connection-scoped state.
//!
//! The packet adapter stays outside. This module owns what must hold whichever
//! schedule supplies an observation: identity by protocol id, snapshots from
//! before a removal, isolation of scopes, and suppression of repeated tokens.

use std::collections::{HashMap, VecDeque};
use std::sync::Arc;

use vstd::prelude::*;
use vstd::string::*;

use crate::number::{Double, Vec3Value};
use crate::text::{decimal, digit_char, push_decimal, push_signed_decimal, signed_decimal};

verus! {

broadcast use vstd::std_specs::hash::group_hash_axioms;

/// How many recent tokens are remembered for duplicate suppression.
pub const ENTITY_PRODUCER_DEDUPE_CAPACITY: usize = 1024;

/// An entity of one connection: the epoch of the connection and the protocol id.
#[derive(Clone, Copy, Debug, PartialEq, Eq, Structural)]
pub struct EntityIdentity {
    pub epoch: u64,
    pub protocol_id: i32,
}

impl EntityIdentity {
    /// The text of the key.
    pub open spec fn key_text(self) -> Seq<char> {
        decimal(self.epoch as nat).push(':') + signed_decimal(self.protocol_id as int)
    }

    pub fn new(epoch: u64, protocol_id: i32) -> (identity: Self)
        ensures
            identity == (EntityIdentity { epoch, protocol_id }),
    {
        EntityIdentity { epoch, protocol_id }
    }

    /// The public key of the entity: its epoch, a colon and its protocol id.
    pub fn key(&self) -> (key: String)
        ensures
            key@ == self.key_text(),
    {
        let mut key = String::new();
        push_decimal(&mut key, self.epoch);
        proof {
            reveal_strlit(":");
        }
        key.append(":");
        push_signed_decimal(&mut key, self.protocol_id as i64);
        assert(key@ =~= self.key_text());
        key
    }
}

/// A numeral is made of digits only.
proof fn lemma_decimal_digits(n: nat)
    ensures
        decimal(n).len() > 0,
        forall|i: int| 0 <= i < decimal(n).len() ==> '0' <= #[trigger] decimal(n)[i] <= '9',
    decreases n,
{
    if n >= 10 {
        lemma_decimal_digits(n / 10);
    }
}

/// Different numbers have different numerals.
pub proof fn lemma_decimal_injective(a: nat, b: nat)
    requires
        decimal(a) == decimal(b),
    ensures
        a == b,
    decreases a,
{
    let x = decimal(a);
    let y = decimal(b);
    if a >= 10 {
        lemma_decimal_digits(a / 10);
    }
    if b >= 10 {
        lemma_decimal_digits(b / 10);
    }
    assert(x.last() == y.last());
    if a < 10 {
        if b >= 10 {
            assert(y.len() > 1);
            assert(x.len() == 1);
        }
    } else {
        if b < 10 {
            assert(x.len() > 1);
            assert(y.len() == 1);
        } else {
            assert(x.drop_last() =~= decimal(a / 10));
            assert(y.drop_last() =~= decimal(b / 10));
            lemma_decimal_injective(a / 10, b / 10);
        }
    }
}

/// Different integers have different signed numerals.
proof fn lemma_signed_decimal_injective(a: int, b: int)
    requires
        signed_decimal(a) == signed_decimal(b),
    ensures
        a == b,
{
    let x = signed_decimal(a);
    let y = signed_decimal(b);
    if a < 0 {
        lemma_decimal_digits((-a) as nat);
        assert(x[0] == '-');
    } else {
        lemma_decimal_digits(a as nat);
    }
    if b < 0 {
        lemma_decimal_digits((-b) as nat);
        assert(y[0] == '-');
    } else {
        lemma_decimal_digits(b as nat);
    }
    if a < 0 && b < 0 {
        assert(x.subrange(1, x.len() as int) =~= decimal((-a) as nat));
        assert(y.subrange(1, y.len() as int) =~= decimal((-b) as nat));
        lemma_decimal_injective((-a) as nat, (-b) as nat);
    } else if a >= 0 && b >= 0 {
        lemma_decimal_injective(a as nat, b as nat);
    }
}

/// The key starts with the epoch's numeral and a colon.
pub open spec fn key_has_epoch(key: Seq<char>, epoch: u64) -> bool {
    let prefix = decimal(epoch as nat).push(':');
    prefix.len() <= key.len() && key.subrange(0, prefix.len() as int) == prefix
}

/// A key starts with the numeral and colon of its own epoch and of no other.
pub proof fn law_key_prefix_is_its_epoch(identity: EntityIdentity, epoch: u64)
    ensures
        key_has_epoch(identity.key_text(), epoch) <==> identity.epoch == epoch,
{
    let key = identity.key_text();
    let own = decimal(identity.epoch as nat);
    let other = decimal(epoch as nat);
    lemma_decimal_digits(identity.epoch as nat);
    lemma_decimal_digits(epoch as nat);
    assert(key.subrange(0, own.len() as int) =~= own);
    assert(key[own.len() as int] == ':');
    if identity.epoch == epoch {
        assert(key.subrange(0, own.len() as int + 1) =~= own.push(':'));
    }
    if key_has_epoch(key, epoch) {
        let prefix = other.push(':');
        let n = other.len() as int;
        assert(prefix[n] == ':');
        assert(key.subrange(0, n + 1)[n] == key[n]);
        if n < own.len() {
            assert(key.subrange(0, own.len() as int)[n] == own[n]);
            assert('0' <= own[n] <= '9');
            assert(false);
        }
        if n > own.len() {
            let k = own.len() as int;
            assert(prefix[k] == other[k]);
            assert(key.subrange(0, n + 1)[k] == key[k]);
            assert('0' <= other[k] <= '9');
            assert(false);
        }
        assert(other =~= own) by {
            assert forall|i: int| 0 <= i < n implies other[i] == own[i] by {
                assert(prefix[i] == other[i]);
                assert(key.subrange(0, n + 1)[i] == key[i]);
                assert(key.subrange(0, own.len() as int)[i] == own[i]);
            }
        }
        lemma_decimal_injective(identity.epoch as nat, epoch as nat);
    }
}

/// Different entities have different keys, also across connections.
pub proof fn law_entity_keys_are_unique(a: EntityIdentity, b: EntityIdentity)
    requires
        a.key_text() == b.key_text(),
    ensures
        a == b,
{
    law_key_prefix_is_its_epoch(a, a.epoch);
    law_key_prefix_is_its_epoch(b, a.epoch);
    let n = decimal(a.epoch as nat).len() as int + 1;
    assert(a.key_text().subrange(n, a.key_text().len() as int) =~= signed_decimal(
        a.protocol_id as int,
    ));
    assert(b.key_text().subrange(n, b.key_text().len() as int) =~= signed_decimal(
        b.protocol_id as int,
    ));
    lemma_signed_decimal_injective(a.protocol_id as int, b.protocol_id as int);
}

/// One worn or held item.
#[derive(Debug, PartialEq, Eq)]
pub struct EntityEquipment {
    pub slot: u32,
    pub item_name: String,
    pub count: i64,
}

/// How an entity holds itself.
#[derive(Debug, PartialEq, Eq)]
pub enum EntityPose {
    Standing,
    Named(String),
}

impl EntityPose {
    pub open spec fn spec_text(self) -> Seq<char> {
        match self {
            EntityPose::Standing => "standing"@,
            EntityPose::Named(text) => text@,
        }
    }

    /// The pose in a word.
    pub fn text(&self) -> (r: String)
        ensures
            r@ == self.spec_text(),
    {
        match self {
            EntityPose::Standing => "standing".to_owned(),
            EntityPose::Named(text) => text.clone(),
        }
    }
}

impl Clone for EntityPose {
    fn clone(&self) -> (r: Self)
        ensures
            r == *self,
    {
        match self {
            EntityPose::Standing => EntityPose::Standing,
            EntityPose::Named(text) => EntityPose::Named(text.clone()),
        }
    }
}

/// The state of one entity as the packet stream tells it.
#[derive(Debug, PartialEq, Eq)]
pub struct NormalizedEntitySnapshot {
    pub identity: EntityIdentity,
    pub entity_type: String,
    pub uuid: Option<String>,
    pub name: Option<String>,
    pub username: Option<String>,
    pub position: Vec3Value,
    pub velocity: Vec3Value,
    pub yaw: Double,
    pub pitch: Double,
    pub head_yaw: Option<Double>,
    pub width: Double,
    pub height: Double,
    pub on_ground: bool,
    pub pose: Option<EntityPose>,
    pub held_item_name: Option<String>,
    pub equipment: Arc<Vec<EntityEquipment>>,
    pub valid: bool,
}

impl Clone for NormalizedEntitySnapshot {
    fn clone(&self) -> (r: Self)
        ensures
            r == *self,
    {
        NormalizedEntitySnapshot {
            identity: self.identity,
            entity_type: self.entity_type.clone(),
            uuid: self.uuid.clone(),
            name: self.name.clone(),
            username: self.username.clone(),
            position: self.position,
            velocity: self.velocity,
            yaw: self.yaw,
            pitch: self.pitch,
            head_yaw: self.head_yaw,
            width: self.width,
            height: self.height,
            on_ground: self.on_ground,
            pose: match &self.pose {
                Some(pose) => Some(pose.clone()),
                None => None,
            },
            held_item_name: self.held_item_name.clone(),
            equipment: self.equipment.clone(),
            valid: self.valid,
        }
    }
}

impl NormalizedEntitySnapshot {
    /// Every number is finite; those that are published in single precision
    /// are finite there too.
    pub open spec fn finite(self) -> bool {
        &&& self.position.finite()
        &&& self.velocity.finite()
        &&& self.yaw.finite() && self.yaw.finite_as_single()
        &&& self.pitch.finite() && self.pitch.finite_as_single()
        &&& (self.head_yaw matches Some(value) ==> value.finite() && value.finite_as_single())
        &&& self.width.finite() && self.width.finite_as_single()
        &&& self.height.finite() && self.height.finite_as_single()
    }

    /// Tells whether every number is finite.
    pub fn is_finite(&self) -> (r: bool)
        ensures
            r == self.finite(),
    {
        let head = match self.head_yaw {
            Some(value) => value.is_finite() && value.is_finite_as_single(),
            None => true,
        };
        head && self.position.is_finite() && self.velocity.is_finite() && self.yaw.is_finite()
            && self.yaw.is_finite_as_single() && self.pitch.is_finite()
            && self.pitch.is_finite_as_single() && self.width.is_finite()
            && self.width.is_finite_as_single() && self.height.is_finite()
            && self.height.is_finite_as_single()
    }

    /// The state can be kept among the published ones: it is finite, and slots
    /// and counts are in range.
    pub open spec fn representable(self) -> bool {
        self.finite() && forall|i: int|
            0 <= i < self.equipment@.len() ==> (#[trigger] self.equipment@[i]).slot <= u8::MAX
                && i32::MIN <= self.equipment@[i].count <= i32::MAX
    }

    /// The state can be reported by an event: besides, no count is negative.
    pub open spec fn publishable(self) -> bool {
        self.representable() && forall|i: int|
            0 <= i < self.equipment@.len() ==> 0 <= (#[trigger] self.equipment@[i]).count
    }

    /// Tells whether the state can be kept among the published ones.
    pub fn is_representable(&self) -> (r: bool)
        ensures
            r == self.representable(),
    {
        if !self.is_finite() {
            return false;
        }
        let mut i: usize = 0;
        while i < self.equipment.len()
            invariant
                self.finite(),
                i <= self.equipment@.len(),
                forall|k: int|
                    0 <= k < i ==> (#[trigger] self.equipment@[k]).slot <= u8::MAX && i32::MIN
                        <= self.equipment@[k].count <= i32::MAX,
            decreases self.equipment@.len() - i,
        {
            let item = &self.equipment[i];
            if item.slot > 255 || item.count < -2147483648 || item.count > 2147483647 {
                assert(self.equipment@[i as int] == *item);
                return false;
            }
            i = i + 1;
        }
        true
    }

    /// Tells whether the state can be reported by an event.
    pub fn is_publishable(&self) -> (r: bool)
        ensures
            r == self.publishable(),
    {
        if !self.is_representable() {
            return false;
        }
        let mut i: usize = 0;
        while i < self.equipment.len()
            invariant
                self.representable(),
                i <= self.equipment@.len(),
                forall|k: int| 0 <= k < i ==> 0 <= (#[trigger] self.equipment@[k]).count,
            decreases self.equipment@.len() - i,
        {
            let item = &self.equipment[i];
            if item.count < 0 {
                assert(self.equipment@[i as int] == *item);
                return false;
            }
            i = i + 1;
        }
        true
    }

    /// The state as it is published: angles and measures in single precision.
    pub open spec fn shown(self) -> NormalizedEntitySnapshot {
        NormalizedEntitySnapshot {
            yaw: self.yaw.single_rounded(),
            pitch: self.pitch.single_rounded(),
            head_yaw: match self.head_yaw {
                Some(value) => Some(value.single_rounded()),
                None => None,
            },
            width: self.width.single_rounded(),
            height: self.height.single_rounded(),
            ..self
        }
    }

    /// Gives the state the precision in which it is published.
    pub fn published(&self) -> (r: Self)
        ensures
            r == self.shown(),
    {
        let mut state = self.clone();
        state.yaw = self.yaw.round_to_single();
        state.pitch = self.pitch.round_to_single();
        state.head_yaw = match self.head_yaw {
            Some(value) => Some(value.round_to_single()),
            None => None,
        };
        state.width = self.width.round_to_single();
        state.height = self.height.round_to_single();
        state
    }

    /// The public key of the entity.
    pub fn entity_key(&self) -> (key: String)
        ensures
            key@ == self.identity.key_text(),
    {
        self.identity.key()
    }
}

/// What kind of packet an observation came with.
#[derive(Clone, Copy, Debug, PartialEq, Eq, Structural)]
pub enum PacketKind {
    Add,
    MovePos,
    MovePosRot,
    MoveRot,
    Teleport,
    PositionSync,
    RotateHead,
    SetMotion,
}

impl PacketKind {
    pub open spec fn spec_text(self) -> Seq<char> {
        match self {
            PacketKind::Add => "add"@,
            PacketKind::MovePos => "move-pos"@,
            PacketKind::MovePosRot => "move-pos-rot"@,
            PacketKind::MoveRot => "move-rot"@,
            PacketKind::Teleport => "teleport"@,
            PacketKind::PositionSync => "position-sync"@,
            PacketKind::RotateHead => "rotate-head"@,
            PacketKind::SetMotion => "set-motion"@,
        }
    }

    /// The kind in a word.
    pub fn text(&self) -> (r: &'static str)
        ensures
            r@ == self.spec_text(),
    {
        match self {
            PacketKind::Add => "add",
            PacketKind::MovePos => "move-pos",
            PacketKind::MovePosRot => "move-pos-rot",
            PacketKind::MoveRot => "move-rot",
            PacketKind::Teleport => "teleport",
            PacketKind::PositionSync => "position-sync",
            PacketKind::RotateHead => "rotate-head",
            PacketKind::SetMotion => "set-motion",
        }
    }
}

/// The name of a token.
#[derive(Debug, PartialEq, Eq)]
pub enum TokenName {
    /// A packet, by the number of its admission.
    Packet { admission: u64, kind: PacketKind },
    /// One entity of a removal packet, by its place in the packet.
    Removal { admission: u64, id: i32, index: u64 },
    Named(String),
}

impl TokenName {
    pub open spec fn spec_text(self) -> Seq<char> {
        match self {
            TokenName::Packet { admission, kind } => "packet-admission:"@ + decimal(
                admission as nat,
            ) + ":"@ + kind.spec_text(),
            TokenName::Removal { admission, id, index } => "packet-admission:"@ + decimal(
                admission as nat,
            ) + ":remove:MinecraftEntityId("@ + signed_decimal(id as int) + "):"@ + decimal(
                index as nat,
            ),
            TokenName::Named(text) => text@,
        }
    }

    /// The name as it is written.
    pub fn text(&self) -> (r: String)
        ensures
            r@ == self.spec_text(),
    {
        match self {
            TokenName::Packet { admission, kind } => {
                let mut out = "packet-admission:".to_owned();
                push_decimal(&mut out, *admission);
                out.concat(":").concat(kind.text())
            },
            TokenName::Removal { admission, id, index } => {
                let mut out = "packet-admission:".to_owned();
                push_decimal(&mut out, *admission);
                let mut out = out.concat(":remove:MinecraftEntityId(");
                push_signed_decimal(&mut out, *id as i64);
                let mut out = out.concat("):");
                push_decimal(&mut out, *index);
                out
            },
            TokenName::Named(text) => text.clone(),
        }
    }
}

impl Clone for TokenName {
    fn clone(&self) -> (r: Self)
        ensures
            r == *self,
    {
        match self {
            TokenName::Packet { admission, kind } => TokenName::Packet {
                admission: *admission,
                kind: *kind,
            },
            TokenName::Removal { admission, id, index } => TokenName::Removal {
                admission: *admission,
                id: *id,
                index: *index,
            },
            TokenName::Named(text) => TokenName::Named(text.clone()),
        }
    }
}

/// The mark by which one observation is told from its repetition.
#[derive(Debug, PartialEq, Eq)]
pub struct EntityProducerToken {
    pub epoch: u64,
    pub name: TokenName,
}

/// A token as a value: its epoch and its text.
pub type TokenValue = (u64, Seq<char>);

impl EntityProducerToken {
    pub open spec fn spec_value(self) -> TokenValue {
        (self.epoch, self.name.spec_text())
    }

    pub fn new(epoch: u64, value: String) -> (token: Self)
        ensures
            token == (EntityProducerToken { epoch, name: TokenName::Named(value) }),
    {
        EntityProducerToken { epoch, name: TokenName::Named(value) }
    }

    fn same(&self, other: &EntityProducerToken) -> (r: bool)
        ensures
            r == (self.spec_value() == other.spec_value()),
    {
        self.epoch == other.epoch && self.name.text() == other.name.text()
    }
}

impl Clone for EntityProducerToken {
    fn clone(&self) -> (r: Self)
        ensures
            r == *self,
    {
        EntityProducerToken { epoch: self.epoch, name: self.name.clone() }
    }
}

/// The fields that an update names. Packet updates name none.
#[derive(Clone, Copy, Debug, PartialEq, Eq, Structural)]
pub enum ChangedFields {
    NotReported,
}

impl ChangedFields {
    /// The names of the changed fields.
    pub fn names(&self) -> (names: Vec<String>)
        ensures
            names@.len() == 0,
    {
        Vec::new()
    }
}

/// What happened to an entity.
#[allow(inconsistent_fields)]
#[derive(Debug, PartialEq, Eq)]
pub enum NormalizedEntityEvent {
    Spawned { entity: Arc<NormalizedEntitySnapshot> },
    Moved { entity: Arc<NormalizedEntitySnapshot> },
    Updated { entity: Arc<NormalizedEntitySnapshot>, changed: ChangedFields },
    Animation { entity: EntityIdentity, animation: String },
    Hurt { entity: EntityIdentity, possible_source: Option<EntityIdentity> },
    Removed { entity: EntityIdentity, last: Arc<NormalizedEntitySnapshot> },
}

/// Why an entity went away.
#[derive(Clone, Copy, Debug, PartialEq, Eq)]
pub enum EntityRemovalReason {
    ProtocolRemoved,
}

impl NormalizedEntityEvent {
    /// The event as it is published, its states in the published precision.
    pub open spec fn shown(self) -> NormalizedEntityEvent {
        match self {
            NormalizedEntityEvent::Spawned { entity } => NormalizedEntityEvent::Spawned {
                entity: Arc::new(entity.shown()),
            },
            NormalizedEntityEvent::Moved { entity } => NormalizedEntityEvent::Moved {
                entity: Arc::new(entity.shown()),
            },
            NormalizedEntityEvent::Updated { entity, changed } => NormalizedEntityEvent::Updated {
                entity: Arc::new(entity.shown()),
                changed,
            },
            NormalizedEntityEvent::Removed { entity, last } => NormalizedEntityEvent::Removed {
                entity,
                last: Arc::new(last.shown()),
            },
            other => other,
        }
    }

    /// Gives the states of the event the precision in which they are published.
    pub fn published(self) -> (r: Self)
        ensures
            r == self.shown(),
    {
        match self {
            NormalizedEntityEvent::Spawned { entity } => NormalizedEntityEvent::Spawned {
                entity: Arc::new(entity.published()),
            },
            NormalizedEntityEvent::Moved { entity } => NormalizedEntityEvent::Moved {
                entity: Arc::new(entity.published()),
            },
            NormalizedEntityEvent::Updated { entity, changed } => NormalizedEntityEvent::Updated {
                entity: Arc::new(entity.published()),
                changed,
            },
            NormalizedEntityEvent::Removed { entity, last } => NormalizedEntityEvent::Removed {
                entity,
                last: Arc::new(last.published()),
            },
            other => other,
        }
    }

    /// Why the entity went away, if it did: the server said so.
    pub fn removal_reason(&self) -> (reason: Option<EntityRemovalReason>)
        ensures
            reason == (match self {
                NormalizedEntityEvent::Removed { .. } => Some(EntityRemovalReason::ProtocolRemoved),
                _ => None,
            }),
    {
        match self {
            NormalizedEntityEvent::Removed { .. } => Some(EntityRemovalReason::ProtocolRemoved),
            _ => None,
        }
    }
}

impl Clone for NormalizedEntityEvent {
    fn clone(&self) -> (r: Self)
        ensures
            r == *self,
    {
        match self {
            NormalizedEntityEvent::Spawned { entity } => NormalizedEntityEvent::Spawned {
                entity: entity.clone(),
            },
            NormalizedEntityEvent::Moved { entity } => NormalizedEntityEvent::Moved {
                entity: entity.clone(),
            },
            NormalizedEntityEvent::Updated { entity, changed } => NormalizedEntityEvent::Updated {
                entity: entity.clone(),
                changed: *changed,
            },
            NormalizedEntityEvent::Animation { entity, animation } =>
            NormalizedEntityEvent::Animation { entity: *entity, animation: animation.clone() },
            NormalizedEntityEvent::Hurt { entity, possible_source } =>
            NormalizedEntityEvent::Hurt { entity: *entity, possible_source: *possible_source },
            NormalizedEntityEvent::Removed { entity, last } => NormalizedEntityEvent::Removed {
                entity: *entity,
                last: last.clone(),
            },
        }
    }
}

/// One switch for each axis.
#[derive(Clone, Copy, Debug, PartialEq, Eq, Structural)]
pub struct AxisFlags {
    pub x: bool,
    pub y: bool,
    pub z: bool,
}

/// A displacement in the packet's fixed-point steps.
#[derive(Clone, Copy, Debug, PartialEq, Eq, Structural)]
pub struct AxisSteps {
    pub x: i64,
    pub y: i64,
    pub z: i64,
}

/// A direction of view in the packet's byte-sized angles.
#[derive(Clone, Copy, Debug, PartialEq, Eq, Structural)]
pub struct CompactLook {
    pub yaw: i8,
    pub pitch: i8,
}

/// A direction of view in full precision.
#[derive(Clone, Copy, Debug, PartialEq, Eq, Structural)]
pub struct WideLook {
    pub yaw: Double,
    pub pitch: Double,
}

/// One movement of an entity, applied to its last known state. A missing field
/// keeps the value from the packet before.
#[derive(Clone, Copy, Debug, PartialEq, Eq, Structural)]
pub struct EntityMovePatch {
    pub entity: EntityIdentity,
    pub delta: Option<AxisSteps>,
    pub compact_look: Option<CompactLook>,
    pub head_yaw: Option<i8>,
    pub absolute_position: Option<Vec3Value>,
    pub absolute_look: Option<WideLook>,
    pub relative_position: AxisFlags,
    pub relative_yaw: bool,
    pub relative_pitch: bool,
    pub velocity: Option<Vec3Value>,
    pub relative_velocity: AxisFlags,
    pub rotate_velocity: bool,
    pub on_ground: Option<bool>,
}

/// No axis is relative.
pub open spec fn no_axis() -> AxisFlags {
    AxisFlags { x: false, y: false, z: false }
}

impl EntityMovePatch {
    /// A step from the last position, with or without a new look.
    pub open spec fn step(
        entity: EntityIdentity,
        delta: Option<AxisSteps>,
        compact_look: Option<CompactLook>,
        on_ground: bool,
    ) -> EntityMovePatch {
        EntityMovePatch {
            entity,
            delta,
            compact_look,
            head_yaw: None,
            absolute_position: None,
            absolute_look: None,
            relative_position: no_axis(),
            relative_yaw: false,
            relative_pitch: false,
            velocity: None,
            relative_velocity: no_axis(),
            rotate_velocity: false,
            on_ground: Some(on_ground),
        }
    }

    /// A teleport, each of its parts absolute or relative.
    pub open spec fn leap(
        entity: EntityIdentity,
        position: Vec3Value,
        look: WideLook,
        relative_position: AxisFlags,
        relative_yaw: bool,
        relative_pitch: bool,
        velocity: Vec3Value,
        relative_velocity: AxisFlags,
        rotate_velocity: bool,
        on_ground: bool,
    ) -> EntityMovePatch {
        EntityMovePatch {
            entity,
            delta: None,
            compact_look: None,
            head_yaw: None,
            absolute_position: Some(position),
            absolute_look: Some(look),
            relative_position,
            relative_yaw,
            relative_pitch,
            velocity: Some(velocity),
            relative_velocity,
            rotate_velocity,
            on_ground: Some(on_ground),
        }
    }

    /// A correction that replaces position, look and velocity.
    pub open spec fn correction(
        entity: EntityIdentity,
        position: Vec3Value,
        look: WideLook,
        velocity: Vec3Value,
        on_ground: bool,
    ) -> EntityMovePatch {
        EntityMovePatch {
            entity,
            delta: None,
            compact_look: None,
            head_yaw: None,
            absolute_position: Some(position),
            absolute_look: Some(look),
            relative_position: no_axis(),
            relative_yaw: false,
            relative_pitch: false,
            velocity: Some(velocity),
            relative_velocity: no_axis(),
            rotate_velocity: false,
            on_ground: Some(on_ground),
        }
    }

    /// A turn of the head alone.
    pub open spec fn head_turn(entity: EntityIdentity, head_yaw: i8) -> EntityMovePatch {
        EntityMovePatch {
            entity,
            delta: None,
            compact_look: None,
            head_yaw: Some(head_yaw),
            absolute_position: None,
            absolute_look: None,
            relative_position: no_axis(),
            relative_yaw: false,
            relative_pitch: false,
            velocity: None,
            relative_velocity: no_axis(),
            rotate_velocity: false,
            on_ground: None,
        }
    }

    /// A step from the last position, with or without a new look.
    pub fn relative(
        entity: EntityIdentity,
        delta: Option<AxisSteps>,
        compact_look: Option<CompactLook>,
        on_ground: bool,
    ) -> (patch: Self)
        ensures
            patch == EntityMovePatch::step(entity, delta, compact_look, on_ground),
    {
        let none = AxisFlags { x: false, y: false, z: false };
        EntityMovePatch {
            entity,
            delta,
            compact_look,
            head_yaw: None,
            absolute_position: None,
            absolute_look: None,
            relative_position: none,
            relative_yaw: false,
            relative_pitch: false,
            velocity: None,
            relative_velocity: none,
            rotate_velocity: false,
            on_ground: Some(on_ground),
        }
    }

    /// A teleport, each of its parts absolute or relative.
    pub fn teleport(
        entity: EntityIdentity,
        position: Vec3Value,
        look: WideLook,
        relative_position: AxisFlags,
        relative_yaw: bool,
        relative_pitch: bool,
        velocity: Vec3Value,
        relative_velocity: AxisFlags,
        rotate_velocity: bool,
        on_ground: bool,
    ) -> (patch: Self)
        ensures
            patch == EntityMovePatch::leap(
                entity,
                position,
                look,
                relative_position,
                relative_yaw,
                relative_pitch,
                velocity,
                relative_velocity,
                rotate_velocity,
                on_ground,
            ),
    {
        EntityMovePatch {
            entity,
            delta: None,
            compact_look: None,
            head_yaw: None,
            absolute_position: Some(position),
            absolute_look: Some(look),
            relative_position,
            relative_yaw,
            relative_pitch,
            velocity: Some(velocity),
            relative_velocity,
            rotate_velocity,
            on_ground: Some(on_ground),
        }
    }

    /// A correction that replaces position, look and velocity.
    pub fn position_sync(
        entity: EntityIdentity,
        position: Vec3Value,
        look: WideLook,
        velocity: Vec3Value,
        on_ground: bool,
    ) -> (patch: Self)
        ensures
            patch == EntityMovePatch::correction(entity, position, look, velocity, on_ground),
    {
        let none = AxisFlags { x: false, y: false, z: false };
        EntityMovePatch::teleport(
            entity,
            position,
            look,
            none,
            false,
            false,
            velocity,
            none,
            false,
            on_ground,
        )
    }

    /// A turn of the head alone.
    pub fn rotate_head(entity: EntityIdentity, head_yaw: i8) -> (patch: Self)
        ensures
            patch == EntityMovePatch::head_turn(entity, head_yaw),
    {
        let none = AxisFlags { x: false, y: false, z: false };
        EntityMovePatch {
            entity,
            delta: None,
            compact_look: None,
            head_yaw: Some(head_yaw),
            absolute_position: None,
            absolute_look: None,
            relative_position: none,
            relative_yaw: false,
            relative_pitch: false,
            velocity: None,
            relative_velocity: none,
            rotate_velocity: false,
            on_ground: None,
        }
    }
}

/// The results of the floating-point work of one movement, computed by the
/// caller from the last known state. Only the fields that need arithmetic are
/// taken from it.
#[derive(Clone, Copy, Debug, PartialEq, Eq, Structural)]
pub struct MoveArithmetic {
    pub position: Vec3Value,
    pub velocity: Vec3Value,
    pub yaw: Double,
    pub pitch: Double,
    pub head_yaw: Double,
}

/// One axis of the position after a movement.
pub open spec fn moved_axis(
    base: Double,
    step: Option<i64>,
    absolute: Option<Double>,
    relative: bool,
    computed: Double,
) -> Double {
    match absolute {
        Some(value) => if relative {
            computed
        } else {
            value
        },
        None => match step {
            Some(0) | None => base,
            Some(_) => computed,
        },
    }
}

fn move_axis(
    base: Double,
    step: Option<i64>,
    absolute: Option<Double>,
    relative: bool,
    computed: Double,
) -> (r: Double)
    ensures
        r == moved_axis(base, step, absolute, relative, computed),
{
    match absolute {
        Some(value) => if relative {
            computed
        } else {
            value
        },
        None => match step {
            Some(count) => if count == 0 {
                base
            } else {
                computed
            },
            None => base,
        },
    }
}

/// One axis of the velocity after a movement.
pub open spec fn moved_velocity(
    base: Double,
    given: Option<Double>,
    relative: bool,
    rotate: bool,
    computed: Double,
) -> Double {
    match given {
        Some(value) => if relative {
            computed
        } else {
            value
        },
        None => if rotate {
            computed
        } else {
            base
        },
    }
}

fn move_velocity(
    base: Double,
    given: Option<Double>,
    relative: bool,
    rotate: bool,
    computed: Double,
) -> (r: Double)
    ensures
        r == moved_velocity(base, given, relative, rotate, computed),
{
    match given {
        Some(value) => if relative {
            computed
        } else {
            value
        },
        None => if rotate {
            computed
        } else {
            base
        },
    }
}

pub open spec fn step_x(steps: Option<AxisSteps>) -> Option<i64> {
    match steps {
        Some(s) => Some(s.x),
        None => None,
    }
}

pub open spec fn step_y(steps: Option<AxisSteps>) -> Option<i64> {
    match steps {
        Some(s) => Some(s.y),
        None => None,
    }
}

pub open spec fn step_z(steps: Option<AxisSteps>) -> Option<i64> {
    match steps {
        Some(s) => Some(s.z),
        None => None,
    }
}

pub open spec fn axis_x(v: Option<Vec3Value>) -> Option<Double> {
    match v {
        Some(s) => Some(s.x),
        None => None,
    }
}

pub open spec fn axis_y(v: Option<Vec3Value>) -> Option<Double> {
    match v {
        Some(s) => Some(s.y),
        None => None,
    }
}

pub open spec fn axis_z(v: Option<Vec3Value>) -> Option<Double> {
    match v {
        Some(s) => Some(s.z),
        None => None,
    }
}

/// The position after a movement.
pub open spec fn moved_position(
    before: Vec3Value,
    patch: EntityMovePatch,
    computed: Vec3Value,
) -> Vec3Value {
    Vec3Value {
        x: moved_axis(
            before.x,
            step_x(patch.delta),
            axis_x(patch.absolute_position),
            patch.relative_position.x,
            computed.x,
        ),
        y: moved_axis(
            before.y,
            step_y(patch.delta),
            axis_y(patch.absolute_position),
            patch.relative_position.y,
            computed.y,
        ),
        z: moved_axis(
            before.z,
            step_z(patch.delta),
            axis_z(patch.absolute_position),
            patch.relative_position.z,
            computed.z,
        ),
    }
}

fn move_position(before: Vec3Value, patch: &EntityMovePatch, computed: Vec3Value) -> (r: Vec3Value)
    ensures
        r == moved_position(before, *patch, computed),
{
    let steps: (Option<i64>, Option<i64>, Option<i64>) = match patch.delta {
        Some(s) => (Some(s.x), Some(s.y), Some(s.z)),
        None => (None, None, None),
    };
    let given = match patch.absolute_position {
        Some(p) => (Some(p.x), Some(p.y), Some(p.z)),
        None => (None, None, None),
    };
    let relative = patch.relative_position;
    Vec3Value {
        x: move_axis(before.x, steps.0, given.0, relative.x, computed.x),
        y: move_axis(before.y, steps.1, given.1, relative.y, computed.y),
        z: move_axis(before.z, steps.2, given.2, relative.z, computed.z),
    }
}

/// The velocity after a movement.
pub open spec fn moved_velocities(
    before: Vec3Value,
    patch: EntityMovePatch,
    computed: Vec3Value,
) -> Vec3Value {
    let rotate = patch.rotate_velocity;
    let relative = patch.relative_velocity;
    Vec3Value {
        x: moved_velocity(before.x, axis_x(patch.velocity), relative.x, rotate, computed.x),
        y: moved_velocity(before.y, axis_y(patch.velocity), relative.y, rotate, computed.y),
        z: moved_velocity(before.z, axis_z(patch.velocity), relative.z, rotate, computed.z),
    }
}

fn move_velocities(
    before: Vec3Value,
    patch: &EntityMovePatch,
    computed: Vec3Value,
) -> (r: Vec3Value)
    ensures
        r == moved_velocities(before, *patch, computed),
{
    let given = match patch.velocity {
        Some(v) => (Some(v.x), Some(v.y), Some(v.z)),
        None => (None, None, None),
    };
    let rotate = patch.rotate_velocity;
    let relative = patch.relative_velocity;
    Vec3Value {
        x: move_velocity(before.x, given.0, relative.x, rotate, computed.x),
        y: move_velocity(before.y, given.1, relative.y, rotate, computed.y),
        z: move_velocity(before.z, given.2, relative.z, rotate, computed.z),
    }
}

/// The direction of view after a movement. A pitch is always brought into
/// range, so a new one comes from the caller's arithmetic.
pub open spec fn moved_look(
    before: WideLook,
    patch: EntityMovePatch,
    computed: WideLook,
) -> WideLook {
    match (patch.absolute_look, patch.compact_look) {
        (Some(look), _) => WideLook {
            yaw: if patch.relative_yaw {
                computed.yaw
            } else {
                look.yaw
            },
            pitch: computed.pitch,
        },
        (None, Some(_)) => computed,
        (None, None) => before,
    }
}

fn move_look(before: WideLook, patch: &EntityMovePatch, computed: WideLook) -> (r: WideLook)
    ensures
        r == moved_look(before, *patch, computed),
{
    match patch.absolute_look {
        Some(look) => WideLook {
            yaw: if patch.relative_yaw {
                computed.yaw
            } else {
                look.yaw
            },
            pitch: computed.pitch,
        },
        None => if patch.compact_look.is_some() {
            computed
        } else {
            before
        },
    }
}

/// The state of an entity after a movement: what the packet sets is set, what
/// it does not mention is kept, and what has to be added up is taken from the
/// caller's arithmetic.
pub open spec fn moved_snapshot(
    before: NormalizedEntitySnapshot,
    patch: EntityMovePatch,
    computed: MoveArithmetic,
) -> NormalizedEntitySnapshot {
    let look = moved_look(
        WideLook { yaw: before.yaw, pitch: before.pitch },
        patch,
        WideLook { yaw: computed.yaw, pitch: computed.pitch },
    );
    NormalizedEntitySnapshot {
        position: moved_position(before.position, patch, computed.position),
        velocity: moved_velocities(before.velocity, patch, computed.velocity),
        yaw: look.yaw,
        pitch: look.pitch,
        head_yaw: if patch.head_yaw is Some {
            Some(computed.head_yaw)
        } else {
            before.head_yaw
        },
        on_ground: match patch.on_ground {
            Some(on_ground) => on_ground,
            None => before.on_ground,
        },
        ..before
    }
}

/// Applies one movement to the state of an entity.
pub fn apply_move_patch(
    snapshot: &mut NormalizedEntitySnapshot,
    patch: EntityMovePatch,
    computed: MoveArithmetic,
)
    ensures
        *final(snapshot) == moved_snapshot(*old(snapshot), patch, computed),
{
    let position = move_position(snapshot.position, &patch, computed.position);
    let velocity = move_velocities(snapshot.velocity, &patch, computed.velocity);
    let look = move_look(
        WideLook { yaw: snapshot.yaw, pitch: snapshot.pitch },
        &patch,
        WideLook { yaw: computed.yaw, pitch: computed.pitch },
    );
    snapshot.position = position;
    snapshot.velocity = velocity;
    snapshot.yaw = look.yaw;
    snapshot.pitch = look.pitch;
    if patch.head_yaw.is_some() {
        snapshot.head_yaw = Some(computed.head_yaw);
    }
    if let Some(on_ground) = patch.on_ground {
        snapshot.on_ground = on_ground;
    }
}

/// A movement keeps everything that tells which entity it is and what it looks like.
pub proof fn law_movement_keeps_identity_and_appearance(
    before: NormalizedEntitySnapshot,
    patch: EntityMovePatch,
    computed: MoveArithmetic,
)
    ensures
        moved_snapshot(before, patch, computed) == (NormalizedEntitySnapshot {
            position: moved_snapshot(before, patch, computed).position,
            velocity: moved_snapshot(before, patch, computed).velocity,
            yaw: moved_snapshot(before, patch, computed).yaw,
            pitch: moved_snapshot(before, patch, computed).pitch,
            head_yaw: moved_snapshot(before, patch, computed).head_yaw,
            on_ground: moved_snapshot(before, patch, computed).on_ground,
            ..before
        }),
{
}

/// One observation of the packet stream.
#[derive(Debug, PartialEq, Eq)]
pub enum EntityProducerInput {
    Spawn { token: EntityProducerToken, snapshot: NormalizedEntitySnapshot },
    Move { token: EntityProducerToken, patch: EntityMovePatch, computed: MoveArithmetic },
    Update { token: EntityProducerToken, snapshot: NormalizedEntitySnapshot },
    Animation { token: EntityProducerToken, entity: EntityIdentity, animation: String },
    Hurt {
        token: EntityProducerToken,
        entity: EntityIdentity,
        possible_source: Option<EntityIdentity>,
    },
    Remove { token: EntityProducerToken, entity: EntityIdentity },
}

impl EntityProducerInput {
    pub open spec fn spec_token(self) -> EntityProducerToken {
        match self {
            EntityProducerInput::Spawn { token, .. } => token,
            EntityProducerInput::Move { token, .. } => token,
            EntityProducerInput::Update { token, .. } => token,
            EntityProducerInput::Animation { token, .. } => token,
            EntityProducerInput::Hurt { token, .. } => token,
            EntityProducerInput::Remove { token, .. } => token,
        }
    }

    /// The entity that the observation is about.
    pub open spec fn subject(self) -> EntityIdentity {
        match self {
            EntityProducerInput::Spawn { snapshot, .. } => snapshot.identity,
            EntityProducerInput::Move { patch, .. } => patch.entity,
            EntityProducerInput::Update { snapshot, .. } => snapshot.identity,
            EntityProducerInput::Animation { entity, .. } => entity,
            EntityProducerInput::Hurt { entity, .. } => entity,
            EntityProducerInput::Remove { entity, .. } => entity,
        }
    }

    /// Token and entities all belong to the epoch.
    pub open spec fn in_scope(self, epoch: u64) -> bool {
        &&& self.spec_token().epoch == epoch
        &&& self.subject().epoch == epoch
        &&& (self matches EntityProducerInput::Hurt { possible_source: Some(source), .. }
            ==> source.epoch == epoch)
    }

    /// Tells whether token and entities all belong to the epoch.
    fn matches_scope(&self, epoch: u64) -> (r: bool)
        ensures
            r == self.in_scope(epoch),
    {
        match self {
            EntityProducerInput::Spawn { token, snapshot } => token.epoch == epoch
                && snapshot.identity.epoch == epoch,
            EntityProducerInput::Update { token, snapshot } => token.epoch == epoch
                && snapshot.identity.epoch == epoch,
            EntityProducerInput::Move { token, patch, .. } => token.epoch == epoch
                && patch.entity.epoch == epoch,
            EntityProducerInput::Animation { token, entity, .. } => token.epoch == epoch
                && entity.epoch == epoch,
            EntityProducerInput::Hurt { token, entity, possible_source } => token.epoch == epoch
                && entity.epoch == epoch && match possible_source {
                Some(source) => source.epoch == epoch,
                None => true,
            },
            EntityProducerInput::Remove { token, entity } => token.epoch == epoch && entity.epoch
                == epoch,
        }
    }
}

/// The producer's state as a value.
#[verifier::ext_equal]
pub ghost struct EntityProducerView {
    /// The epoch of the open scope, if one is open.
    pub epoch: Option<u64>,
    /// The last known state of each tracked entity, by protocol id.
    pub shadows: Map<i32, Arc<NormalizedEntitySnapshot>>,
    /// The remembered tokens, oldest first.
    pub recent: Seq<TokenValue>,
}

/// The tokens that are remembered once one more has been seen.
pub open spec fn remembered(recent: Seq<TokenValue>, token: TokenValue) -> Seq<TokenValue> {
    let longer = recent.push(token);
    if longer.len() > ENTITY_PRODUCER_DEDUPE_CAPACITY {
        longer.subrange(1, longer.len() as int)
    } else {
        longer
    }
}

impl EntityProducerView {
    /// What every reachable state satisfies: shadows are filed under their own
    /// identity in the open scope, and no token is remembered twice.
    pub open spec fn wf(self) -> bool {
        &&& self.recent.len() <= ENTITY_PRODUCER_DEDUPE_CAPACITY
        &&& self.recent.no_duplicates()
        &&& (self.epoch is None ==> self.shadows.dom() =~= Set::empty() && self.recent.len() == 0)
        &&& forall|id: i32| #[trigger] self.shadows.contains_key(id) ==> self.shadows[id].identity
            == (EntityIdentity { epoch: self.epoch->0, protocol_id: id })
        &&& forall|i: int| 0 <= i < self.recent.len() ==> Some((#[trigger] self.recent[i]).0)
            == self.epoch
    }

    pub open spec fn has_shadow(self, entity: EntityIdentity) -> bool {
        self.epoch == Some(entity.epoch) && self.shadows.contains_key(entity.protocol_id)
    }

    /// The numbers that would be stored are finite.
    pub open spec fn finite_result(self, input: EntityProducerInput) -> bool {
        match input {
            EntityProducerInput::Spawn { snapshot, .. } => snapshot.finite(),
            EntityProducerInput::Update { snapshot, .. } => snapshot.finite(),
            EntityProducerInput::Move { patch, computed, .. } => moved_snapshot(
                *self.shadows[patch.entity.protocol_id],
                patch,
                computed,
            ).finite(),
            _ => true,
        }
    }

    /// The observation is taken: its scope is open, what it needs is known, its
    /// numbers are finite and its token is new.
    pub open spec fn admits(self, epoch: u64, input: EntityProducerInput) -> bool {
        &&& self.epoch == Some(epoch)
        &&& input.in_scope(epoch)
        &&& (input is Move || input is Remove ==> self.has_shadow(input.subject()))
        &&& self.finite_result(input)
        &&& !self.recent.contains(input.spec_token().spec_value())
    }

    /// The event that an admitted observation gives rise to.
    pub open spec fn event(self, input: EntityProducerInput) -> NormalizedEntityEvent {
        match input {
            EntityProducerInput::Spawn { snapshot, .. } => NormalizedEntityEvent::Spawned {
                entity: Arc::new(snapshot),
            },
            EntityProducerInput::Move { patch, computed, .. } => NormalizedEntityEvent::Moved {
                entity: Arc::new(
                    moved_snapshot(*self.shadows[patch.entity.protocol_id], patch, computed),
                ),
            },
            EntityProducerInput::Update { snapshot, .. } => NormalizedEntityEvent::Updated {
                entity: Arc::new(snapshot),
                changed: ChangedFields::NotReported,
            },
            EntityProducerInput::Animation { entity, animation, .. } =>
            NormalizedEntityEvent::Animation { entity, animation },
            EntityProducerInput::Hurt { entity, possible_source, .. } =>
            NormalizedEntityEvent::Hurt { entity, possible_source },
            EntityProducerInput::Remove { entity, .. } => NormalizedEntityEvent::Removed {
                entity,
                last: self.shadows[entity.protocol_id],
            },
        }
    }

    /// The shadows after an admitted observation.
    pub open spec fn shadows_after(self, input: EntityProducerInput) -> Map<
        i32,
        Arc<NormalizedEntitySnapshot>,
    > {
        match input {
            EntityProducerInput::Spawn { snapshot, .. } => self.shadows.insert(
                snapshot.identity.protocol_id,
                Arc::new(snapshot),
            ),
            EntityProducerInput::Update { snapshot, .. } => self.shadows.insert(
                snapshot.identity.protocol_id,
                Arc::new(snapshot),
            ),
            EntityProducerInput::Move { patch, computed, .. } => self.shadows.insert(
                patch.entity.protocol_id,
                Arc::new(
                    moved_snapshot(*self.shadows[patch.entity.protocol_id], patch, computed),
                ),
            ),
            EntityProducerInput::Remove { entity, .. } => self.shadows.remove(entity.protocol_id),
            _ => self.shadows,
        }
    }

    /// The state after an observation. One that is not admitted changes nothing.
    pub open spec fn after(self, epoch: u64, input: EntityProducerInput) -> EntityProducerView {
        if self.admits(epoch, input) {
            EntityProducerView {
                epoch: self.epoch,
                shadows: self.shadows_after(input),
                recent: remembered(self.recent, input.spec_token().spec_value()),
            }
        } else {
            self
        }
    }

    /// The event that an observation gives rise to, if it is admitted.
    pub open spec fn emitted(self, epoch: u64, input: EntityProducerInput) -> Option<
        NormalizedEntityEvent,
    > {
        if self.admits(epoch, input) {
            Some(self.event(input))
        } else {
            None
        }
    }

    /// A new velocity is taken for a known entity under the same conditions.
    pub open spec fn admits_velocity(
        self,
        epoch: u64,
        token: EntityProducerToken,
        entity: EntityIdentity,
        velocity: Vec3Value,
    ) -> bool {
        &&& self.epoch == Some(epoch)
        &&& token.epoch == epoch
        &&& entity.epoch == epoch
        &&& velocity.finite()
        &&& self.has_shadow(entity)
        &&& self.with_velocity(entity, velocity).finite()
        &&& !self.recent.contains(token.spec_value())
    }

    pub open spec fn with_velocity(
        self,
        entity: EntityIdentity,
        velocity: Vec3Value,
    ) -> NormalizedEntitySnapshot {
        NormalizedEntitySnapshot { velocity, ..*self.shadows[entity.protocol_id] }
    }

    pub open spec fn after_velocity(
        self,
        epoch: u64,
        token: EntityProducerToken,
        entity: EntityIdentity,
        velocity: Vec3Value,
    ) -> EntityProducerView {
        if self.admits_velocity(epoch, token, entity, velocity) {
            EntityProducerView {
                epoch: self.epoch,
                shadows: self.shadows.insert(
                    entity.protocol_id,
                    Arc::new(self.with_velocity(entity, velocity)),
                ),
                recent: remembered(self.recent, token.spec_value()),
            }
        } else {
            self
        }
    }

    /// An open scope that has seen nothing.
    pub open spec fn opened(epoch: u64) -> EntityProducerView {
        EntityProducerView { epoch: Some(epoch), shadows: Map::empty(), recent: Seq::empty() }
    }

    /// No scope.
    pub open spec fn closed() -> EntityProducerView {
        EntityProducerView { epoch: None, shadows: Map::empty(), recent: Seq::empty() }
    }
}

/// The producer's state: one scope, the last known entities and recent tokens.
pub struct EntityProducerCache {
    epoch: Option<u64>,
    snapshots: HashMap<i32, Arc<NormalizedEntitySnapshot>>,
    recent_tokens: VecDeque<EntityProducerToken>,
}

impl View for EntityProducerCache {
    type V = EntityProducerView;

    closed spec fn view(&self) -> EntityProducerView {
        EntityProducerView {
            epoch: self.epoch,
            shadows: self.snapshots@,
            recent: self.recent_tokens@.map_values(|t: EntityProducerToken| t.spec_value()),
        }
    }
}

impl EntityProducerCache {
    /// A producer without a scope.
    pub fn new() -> (cache: Self)
        ensures
            cache@ == EntityProducerView::closed(),
            cache@.wf(),
    {
        let cache = EntityProducerCache {
            epoch: None,
            snapshots: HashMap::new(),
            recent_tokens: VecDeque::new(),
        };
        assert(cache@ =~= EntityProducerView::closed());
        cache
    }

    /// Opens a scope and forgets everything of the one before.
    pub fn reset_scope(&mut self, epoch: u64)
        ensures
            final(self)@ == EntityProducerView::opened(epoch),
            final(self)@.wf(),
    {
        self.epoch = Some(epoch);
        self.snapshots.clear();
        self.recent_tokens.clear();
        assert(self@ =~= EntityProducerView::opened(epoch));
    }

    /// Closes the scope and forgets everything.
    pub fn deactivate_scope(&mut self)
        ensures
            final(self)@ == EntityProducerView::closed(),
            final(self)@.wf(),
    {
        self.epoch = None;
        self.snapshots.clear();
        self.recent_tokens.clear();
        assert(self@ =~= EntityProducerView::closed());
    }

    /// The epoch of the open scope.
    pub fn scope_epoch(&self) -> (epoch: Option<u64>)
        ensures
            epoch == self@.epoch,
    {
        self.epoch
    }

    /// The last known state of an entity.
    pub fn shadow(&self, entity: EntityIdentity) -> (r: Option<Arc<NormalizedEntitySnapshot>>)
        ensures
            r == (if self@.has_shadow(entity) {
                Some(self@.shadows[entity.protocol_id])
            } else {
                None
            }),
    {
        match self.epoch {
            Some(epoch) => {
                if epoch != entity.epoch {
                    return None;
                }
                match self.snapshots.get(&entity.protocol_id) {
                    Some(snapshot) => Some(snapshot.clone()),
                    None => None,
                }
            },
            None => None,
        }
    }

    fn knows_token(&self, token: &EntityProducerToken) -> (r: bool)
        ensures
            r == self@.recent.contains(token.spec_value()),
    {
        let ghost values = self@.recent;
        let mut i: usize = 0;
        while i < self.recent_tokens.len()
            invariant
                values == self@.recent,
                values.len() == self.recent_tokens@.len(),
                i <= self.recent_tokens@.len(),
                forall|k: int| 0 <= k < i ==> values[k] != token.spec_value(),
            decreases self.recent_tokens@.len() - i,
        {
            let current = &self.recent_tokens[i];
            assert(values[i as int] == current.spec_value());
            if current.same(token) {
                return true;
            }
            i = i + 1;
        }
        false
    }

    fn remember_token(&mut self, token: EntityProducerToken)
        ensures
            final(self)@ == (EntityProducerView {
                recent: remembered(old(self)@.recent, token.spec_value()),
                ..old(self)@
            }),
    {
        let ghost before = self.recent_tokens@;
        self.recent_tokens.push_back(token);
        if self.recent_tokens.len() > ENTITY_PRODUCER_DEDUPE_CAPACITY {
            let _ = self.recent_tokens.pop_front();
        }
        assert(self@ =~= (EntityProducerView {
            recent: remembered(old(self)@.recent, token.spec_value()),
            ..old(self)@
        }));
    }

    /// Takes one observation and tells the event that it gives rise to. An
    /// observation that is not admitted leaves no trace, so that its token can
    /// be used again once what was missing has been seen.
    pub fn apply(&mut self, epoch: u64, input: EntityProducerInput) -> (event: Option<
        NormalizedEntityEvent,
    >)
        requires
            old(self)@.wf(),
        ensures
            event == old(self)@.emitted(epoch, input),
            final(self)@ == old(self)@.after(epoch, input),
            final(self)@.wf(),
    {
        let open = match self.epoch {
            Some(current) => current == epoch,
            None => false,
        };
        if !open || !input.matches_scope(epoch) {
            return None;
        }
        proof {
            self@.lemma_after_wf(epoch, input);
        }
        match input {
            EntityProducerInput::Spawn { token, snapshot } => {
                if !snapshot.is_finite() || self.knows_token(&token) {
                    return None;
                }
                let id: i32 = snapshot.identity.protocol_id;
                let entity = Arc::new(snapshot);
                self.remember_token(token);
                self.snapshots.insert(id, entity.clone());
                assert(self@ =~= old(self)@.after(epoch, input));
                Some(NormalizedEntityEvent::Spawned { entity })
            },
            EntityProducerInput::Move { token, patch, computed } => {
                let mut snapshot = match self.snapshots.get(&patch.entity.protocol_id) {
                    Some(shadow) => {
                        let shared = shadow.clone();
                        (*shared).clone()
                    },
                    None => {
                        return None;
                    },
                };
                apply_move_patch(&mut snapshot, patch, computed);
                if !snapshot.is_finite() || self.knows_token(&token) {
                    return None;
                }
                let entity = Arc::new(snapshot);
                self.remember_token(token);
                self.snapshots.insert(patch.entity.protocol_id, entity.clone());
                assert(self@ =~= old(self)@.after(epoch, input));
                Some(NormalizedEntityEvent::Moved { entity })
            },
            EntityProducerInput::Update { token, snapshot } => {
                if !snapshot.is_finite() || self.knows_token(&token) {
                    return None;
                }
                let id: i32 = snapshot.identity.protocol_id;
                let entity = Arc::new(snapshot);
                self.remember_token(token);
                self.snapshots.insert(id, entity.clone());
                assert(self@ =~= old(self)@.after(epoch, input));
                Some(
                    NormalizedEntityEvent::Updated { entity, changed: ChangedFields::NotReported },
                )
            },
            EntityProducerInput::Animation { token, entity, animation } => {
                if self.knows_token(&token) {
                    return None;
                }
                self.remember_token(token);
                assert(self@ =~= old(self)@.after(epoch, input));
                Some(NormalizedEntityEvent::Animation { entity, animation })
            },
            EntityProducerInput::Hurt { token, entity, possible_source } => {
                if self.knows_token(&token) {
                    return None;
                }
                self.remember_token(token);
                assert(self@ =~= old(self)@.after(epoch, input));
                Some(NormalizedEntityEvent::Hurt { entity, possible_source })
            },
            EntityProducerInput::Remove { token, entity } => {
                let last = match self.snapshots.get(&entity.protocol_id) {
                    Some(shadow) => shadow.clone(),
                    None => {
                        return None;
                    },
                };
                if self.knows_token(&token) {
                    return None;
                }
                self.remember_token(token);
                let _ = self.snapshots.remove(&entity.protocol_id);
                assert(self@ =~= old(self)@.after(epoch, input));
                Some(NormalizedEntityEvent::Removed { entity, last })
            },
        }
    }

    /// Takes a new velocity for a known entity. No event comes of it; the new
    /// state is handed back.
    pub fn apply_velocity_residual(
        &mut self,
        epoch: u64,
        token: EntityProducerToken,
        entity: EntityIdentity,
        velocity: Vec3Value,
    ) -> (snapshot: Option<Arc<NormalizedEntitySnapshot>>)
        requires
            old(self)@.wf(),
        ensures
            snapshot == (if old(self)@.admits_velocity(epoch, token, entity, velocity) {
                Some(Arc::new(old(self)@.with_velocity(entity, velocity)))
            } else {
                None
            }),
            final(self)@ == old(self)@.after_velocity(epoch, token, entity, velocity),
            final(self)@.wf(),
    {
        let open = match self.epoch {
            Some(current) => current == epoch,
            None => false,
        };
        if !open || token.epoch != epoch || entity.epoch != epoch || !velocity.is_finite() {
            return None;
        }
        proof {
            self@.lemma_after_velocity_wf(epoch, token, entity, velocity);
        }
        let mut snapshot = match self.snapshots.get(&entity.protocol_id) {
            Some(shadow) => {
                let shared = shadow.clone();
                (*shared).clone()
            },
            None => {
                return None;
            },
        };
        snapshot.velocity = velocity;
        if !snapshot.is_finite() || self.knows_token(&token) {
            return None;
        }
        let entity_state = Arc::new(snapshot);
        self.remember_token(token);
        self.snapshots.insert(entity.protocol_id, entity_state.clone());
        assert(self@ =~= old(self)@.after_velocity(epoch, token, entity, velocity));
        Some(entity_state)
    }
}

impl EntityProducerView {
    proof fn lemma_remembered_wf(self, token: TokenValue)
        requires
            self.wf(),
            !self.recent.contains(token),
            self.epoch == Some(token.0),
        ensures
            remembered(self.recent, token).len() <= ENTITY_PRODUCER_DEDUPE_CAPACITY,
            remembered(self.recent, token).no_duplicates(),
            forall|i: int|
                0 <= i < remembered(self.recent, token).len() ==> Some(
                    (#[trigger] remembered(self.recent, token)[i]).0,
                ) == self.epoch,
            remembered(self.recent, token).contains(token),
    {
        let longer = self.recent.push(token);
        assert(longer.no_duplicates());
        let kept = remembered(self.recent, token);
        assert(kept.last() == token);
        if longer.len() > ENTITY_PRODUCER_DEDUPE_CAPACITY {
            assert forall|i: int, j: int|
                0 <= i < kept.len() && 0 <= j < kept.len() && i != j implies kept[i]
                != kept[j] by {
                assert(kept[i] == longer[i + 1]);
                assert(kept[j] == longer[j + 1]);
            }
        }
    }

    /// Observations keep the state well formed.
    pub proof fn lemma_after_wf(self, epoch: u64, input: EntityProducerInput)
        requires
            self.wf(),
        ensures
            self.after(epoch, input).wf(),
    {
        if self.admits(epoch, input) {
            self.lemma_remembered_wf(input.spec_token().spec_value());
        }
    }

    /// New velocities keep the state well formed.
    pub proof fn lemma_after_velocity_wf(
        self,
        epoch: u64,
        token: EntityProducerToken,
        entity: EntityIdentity,
        velocity: Vec3Value,
    )
        requires
            self.wf(),
        ensures
            self.after_velocity(epoch, token, entity, velocity).wf(),
    {
        if self.admits_velocity(epoch, token, entity, velocity) {
            self.lemma_remembered_wf(token.spec_value());
        }
    }
}

/// The same observation, delivered again at once, gives no second event.
pub proof fn law_repeated_delivery_is_suppressed(
    state: EntityProducerView,
    epoch: u64,
    input: EntityProducerInput,
)
    requires
        state.wf(),
        state.admits(epoch, input),
    ensures
        !state.after(epoch, input).admits(epoch, input),
        state.after(epoch, input).emitted(epoch, input) is None,
{
    state.lemma_remembered_wf(input.spec_token().spec_value());
}

/// A token is forgotten only after as many newer tokens as are remembered.
pub proof fn law_token_stays_for_a_full_window(
    state: EntityProducerView,
    token: TokenValue,
    position: int,
    newer: TokenValue,
)
    requires
        state.wf(),
        0 <= position < state.recent.len(),
        state.recent[position] == token,
        state.recent.len() < ENTITY_PRODUCER_DEDUPE_CAPACITY || position > 0,
    ensures
        remembered(state.recent, newer).contains(token),
{
    let kept = remembered(state.recent, newer);
    let longer = state.recent.push(newer);
    assert(longer[position] == token);
    if longer.len() > ENTITY_PRODUCER_DEDUPE_CAPACITY {
        assert(kept[position - 1] == token);
    } else {
        assert(kept[position] == token);
    }
}

/// An observation that is refused leaves no trace: the token stays usable.
pub proof fn law_refused_observation_leaves_no_trace(
    state: EntityProducerView,
    epoch: u64,
    input: EntityProducerInput,
)
    requires
        state.emitted(epoch, input) is None,
    ensures
        state.after(epoch, input) == state,
{
}

/// An observation of another epoch than the open scope has no effect.
pub proof fn law_foreign_epoch_is_inert(
    state: EntityProducerView,
    epoch: u64,
    input: EntityProducerInput,
)
    requires
        state.epoch != Some(epoch) || input.spec_token().epoch != epoch || input.subject().epoch
            != epoch,
    ensures
        state.after(epoch, input) == state,
        state.emitted(epoch, input) is None,
{
}

/// An observation never opens, closes or moves a scope.
pub proof fn law_observations_keep_the_scope(
    state: EntityProducerView,
    epoch: u64,
    input: EntityProducerInput,
)
    ensures
        state.after(epoch, input).epoch == state.epoch,
{
}

/// One step of an open scope: an observation, or a new velocity.
pub ghost enum EntityStep {
    Observed { input: EntityProducerInput },
    Velocity { token: EntityProducerToken, entity: EntityIdentity, velocity: Vec3Value },
}

impl EntityStep {
    /// The step makes the entity known, whether or not it was before.
    pub open spec fn introduces(self, entity: EntityIdentity) -> bool {
        self matches EntityStep::Observed { input } && (input is Spawn || input is Update)
            && input.subject() == entity
    }

    /// The step takes the entity away.
    pub open spec fn removes(self, entity: EntityIdentity) -> bool {
        self matches EntityStep::Observed { input } && input is Remove && input.subject() == entity
    }
}

impl EntityProducerView {
    pub open spec fn stepped(self, epoch: u64, step: EntityStep) -> EntityProducerView {
        match step {
            EntityStep::Observed { input } => self.after(epoch, input),
            EntityStep::Velocity { token, entity, velocity } => self.after_velocity(
                epoch,
                token,
                entity,
                velocity,
            ),
        }
    }

    /// The state of the entity that a step hands out, if it is taken.
    pub open spec fn handed_out(self, epoch: u64, step: EntityStep, entity: EntityIdentity) -> Option<
        Arc<NormalizedEntitySnapshot>,
    > {
        match step {
            EntityStep::Observed { input } => if input.subject() == entity {
                match self.emitted(epoch, input) {
                    Some(NormalizedEntityEvent::Spawned { entity: state }) => Some(state),
                    Some(NormalizedEntityEvent::Moved { entity: state }) => Some(state),
                    Some(NormalizedEntityEvent::Updated { entity: state, .. }) => Some(state),
                    _ => None,
                }
            } else {
                None
            },
            EntityStep::Velocity { token, entity: subject, velocity } => if subject == entity
                && self.admits_velocity(epoch, token, entity, velocity) {
                Some(Arc::new(self.with_velocity(entity, velocity)))
            } else {
                None
            },
        }
    }

    /// The scope after a number of steps.
    pub open spec fn run(self, epoch: u64, steps: Seq<EntityStep>) -> EntityProducerView
        decreases steps.len(),
    {
        if steps.len() == 0 {
            self
        } else {
            self.run(epoch, steps.drop_last()).stepped(epoch, steps.last())
        }
    }

    /// The latest state of the entity that any of the steps handed out.
    pub open spec fn latest(
        self,
        epoch: u64,
        steps: Seq<EntityStep>,
        entity: EntityIdentity,
    ) -> Option<Arc<NormalizedEntitySnapshot>>
        decreases steps.len(),
    {
        if steps.len() == 0 {
            None
        } else {
            match self.run(epoch, steps.drop_last()).handed_out(epoch, steps.last(), entity) {
                Some(state) => Some(state),
                None => self.latest(epoch, steps.drop_last(), entity),
            }
        }
    }
}

proof fn lemma_latest_is_kept(
    state: EntityProducerView,
    epoch: u64,
    steps: Seq<EntityStep>,
    entity: EntityIdentity,
)
    requires
        state.epoch == Some(epoch),
        entity.epoch == epoch,
        forall|i: int| 0 <= i < steps.len() ==> !(#[trigger] steps[i]).removes(entity),
    ensures
        state.run(epoch, steps).epoch == Some(epoch),
        state.latest(epoch, steps, entity) matches Some(last) ==> state.run(
            epoch,
            steps,
        ).has_shadow(entity) && state.run(epoch, steps).shadows[entity.protocol_id] == last,
    decreases steps.len(),
{
    if steps.len() > 0 {
        let earlier = steps.drop_last();
        assert forall|i: int| 0 <= i < earlier.len() implies !(#[trigger] earlier[i]).removes(
            entity,
        ) by {
            assert(earlier[i] == steps[i]);
        }
        lemma_latest_is_kept(state, epoch, earlier, entity);
        assert(!steps[steps.len() - 1].removes(entity));
        let before = state.run(epoch, earlier);
        match steps.last() {
            EntityStep::Observed { input } => {
                if before.admits(epoch, input) && input.subject().protocol_id
                    == entity.protocol_id {
                    assert(input.subject() == entity);
                }
            },
            EntityStep::Velocity { token, entity: subject, velocity } => {
                if before.admits_velocity(epoch, token, subject, velocity) && subject.protocol_id
                    == entity.protocol_id {
                    assert(subject == entity);
                }
            },
        }
    }
}

/// A removal carries the latest state that was handed out. However many spawns,
/// moves, updates and velocities there were, of this entity and of others: once
/// one of them handed out a state of the entity, and none took the entity away,
/// its removal under a new token reports the latest of these states.
pub proof fn law_removal_carries_the_last_state(
    state: EntityProducerView,
    epoch: u64,
    entity: EntityIdentity,
    steps: Seq<EntityStep>,
    token: EntityProducerToken,
)
    requires
        state.epoch == Some(epoch),
        entity.epoch == epoch,
        forall|i: int| 0 <= i < steps.len() ==> !(#[trigger] steps[i]).removes(entity),
        state.latest(epoch, steps, entity) is Some,
        token.epoch == epoch,
        !state.run(epoch, steps).recent.contains(token.spec_value()),
    ensures
        state.run(epoch, steps).emitted(epoch, EntityProducerInput::Remove { token, entity })
            == Some(
            NormalizedEntityEvent::Removed {
                entity,
                last: state.latest(epoch, steps, entity)->0,
            },
        ),
{
    lemma_latest_is_kept(state, epoch, steps, entity);
}

proof fn lemma_unknown_stays_unknown(
    state: EntityProducerView,
    epoch: u64,
    steps: Seq<EntityStep>,
    entity: EntityIdentity,
)
    requires
        !state.has_shadow(entity),
        forall|i: int| 0 <= i < steps.len() ==> !(#[trigger] steps[i]).introduces(entity),
    ensures
        !state.run(epoch, steps).has_shadow(entity),
    decreases steps.len(),
{
    if steps.len() > 0 {
        let earlier = steps.drop_last();
        assert forall|i: int| 0 <= i < earlier.len() implies !(#[trigger] earlier[i]).introduces(
            entity,
        ) by {
            assert(earlier[i] == steps[i]);
        }
        lemma_unknown_stays_unknown(state, epoch, earlier, entity);
        assert(!steps[steps.len() - 1].introduces(entity));
        let before = state.run(epoch, earlier);
        match steps.last() {
            EntityStep::Observed { input } => {
                if before.admits(epoch, input) && before.epoch == Some(entity.epoch)
                    && input.subject().protocol_id == entity.protocol_id {
                    assert(input.subject() == entity);
                }
            },
            EntityStep::Velocity { token, entity: subject, velocity } => {
                if before.admits_velocity(epoch, token, subject, velocity) && before.epoch == Some(
                    entity.epoch,
                ) && subject.protocol_id == entity.protocol_id {
                    assert(subject == entity);
                }
            },
        }
    }
}

/// A removal ends the tracking: until the entity is spawned or updated again, a
/// further removal or move of it gives nothing, whatever its token, and neither
/// does a new velocity.
pub proof fn law_removal_ends_the_tracking(
    state: EntityProducerView,
    epoch: u64,
    entity: EntityIdentity,
    removal: EntityProducerInput,
    steps: Seq<EntityStep>,
    later: EntityProducerInput,
    token: EntityProducerToken,
    velocity: Vec3Value,
)
    requires
        removal is Remove,
        removal.subject() == entity,
        state.emitted(epoch, removal) is Some,
        forall|i: int| 0 <= i < steps.len() ==> !(#[trigger] steps[i]).introduces(entity),
        later is Remove || later is Move,
        later.subject() == entity,
    ensures
        ({
            let after = state.after(epoch, removal).run(epoch, steps);
            &&& after.emitted(epoch, later) is None
            &&& after.after(epoch, later) == after
            &&& !after.admits_velocity(epoch, token, entity, velocity)
        }),
{
    lemma_unknown_stays_unknown(state.after(epoch, removal), epoch, steps, entity);
}

/// After a reset nothing of the old scope is left.
pub proof fn law_reset_forgets_everything(epoch: u64, entity: EntityIdentity, token: TokenValue)
    ensures
        !EntityProducerView::opened(epoch).has_shadow(entity),
        !EntityProducerView::opened(epoch).recent.contains(token),
{
}

/// A movement without an absolute position steps along the axes that its packet
/// names; an axis without a step keeps its place.
pub proof fn law_steps_move_along_their_axes(
    before: NormalizedEntitySnapshot,
    patch: EntityMovePatch,
    computed: MoveArithmetic,
)
    requires
        patch.absolute_position is None,
    ensures
        ({
            let after = moved_snapshot(before, patch, computed).position;
            &&& patch.delta is None ==> after == before.position
            &&& patch.delta matches Some(step) ==> {
                &&& after.x == (if step.x == 0 {
                    before.position.x
                } else {
                    computed.position.x
                })
                &&& after.y == (if step.y == 0 {
                    before.position.y
                } else {
                    computed.position.y
                })
                &&& after.z == (if step.z == 0 {
                    before.position.z
                } else {
                    computed.position.z
                })
            }
        }),
{
}

/// An absolute position is the new one, but for the axes on which it is relative.
pub proof fn law_absolute_positions_are_taken(
    before: NormalizedEntitySnapshot,
    patch: EntityMovePatch,
    computed: MoveArithmetic,
    position: Vec3Value,
)
    requires
        patch.absolute_position == Some(position),
    ensures
        ({
            let after = moved_snapshot(before, patch, computed).position;
            &&& after.x == (if patch.relative_position.x {
                computed.position.x
            } else {
                position.x
            })
            &&& after.y == (if patch.relative_position.y {
                computed.position.y
            } else {
                position.y
            })
            &&& after.z == (if patch.relative_position.z {
                computed.position.z
            } else {
                position.z
            })
        }),
{
}

/// A velocity that is given is the new one, but for the axes on which it is
/// relative. Without one the velocity stays, unless it has to be turned.
pub proof fn law_velocities_are_taken(
    before: NormalizedEntitySnapshot,
    patch: EntityMovePatch,
    computed: MoveArithmetic,
)
    ensures
        ({
            let after = moved_snapshot(before, patch, computed).velocity;
            &&& patch.velocity matches Some(velocity) ==> {
                &&& after.x == (if patch.relative_velocity.x {
                    computed.velocity.x
                } else {
                    velocity.x
                })
                &&& after.y == (if patch.relative_velocity.y {
                    computed.velocity.y
                } else {
                    velocity.y
                })
                &&& after.z == (if patch.relative_velocity.z {
                    computed.velocity.z
                } else {
                    velocity.z
                })
            }
            &&& patch.velocity is None && !patch.rotate_velocity ==> after == before.velocity
            &&& patch.velocity is None && patch.rotate_velocity ==> after == computed.velocity
        }),
{
}

/// A look that is given in full is the new one, with its pitch brought into range
/// and its yaw added up if it is relative; a compact look is worked out. Without a
/// look the direction of view stays. A head turn and the ground are taken where
/// the packet tells them.
pub proof fn law_looks_are_taken(
    before: NormalizedEntitySnapshot,
    patch: EntityMovePatch,
    computed: MoveArithmetic,
)
    ensures
        ({
            let after = moved_snapshot(before, patch, computed);
            &&& patch.absolute_look matches Some(look) ==> after.pitch == computed.pitch
                && after.yaw == (if patch.relative_yaw {
                computed.yaw
            } else {
                look.yaw
            })
            &&& patch.absolute_look is None && patch.compact_look is Some ==> after.yaw
                == computed.yaw && after.pitch == computed.pitch
            &&& patch.absolute_look is None && patch.compact_look is None ==> after.yaw
                == before.yaw && after.pitch == before.pitch
            &&& patch.head_yaw is Some ==> after.head_yaw == Some(computed.head_yaw)
            &&& patch.head_yaw is None ==> after.head_yaw == before.head_yaw
            &&& patch.on_ground matches Some(on_ground) ==> after.on_ground == on_ground
            &&& patch.on_ground is None ==> after.on_ground == before.on_ground
        }),
{
}

/// An observation is taken exactly in the open scope and under a new token, both
/// of its own epoch. What it would store has to be numbers; a movement and a
/// removal need an entity that is known.
pub proof fn law_which_observations_are_taken(
    state: EntityProducerView,
    epoch: u64,
    input: EntityProducerInput,
)
    ensures
        state.emitted(epoch, input) is Some <==> {
            &&& state.epoch == Some(epoch)
            &&& match input {
                EntityProducerInput::Spawn { token, snapshot } => token.epoch == epoch
                    && snapshot.identity.epoch == epoch && snapshot.finite()
                    && !state.recent.contains((token.epoch, token.name.spec_text())),
                EntityProducerInput::Update { token, snapshot } => token.epoch == epoch
                    && snapshot.identity.epoch == epoch && snapshot.finite()
                    && !state.recent.contains((token.epoch, token.name.spec_text())),
                EntityProducerInput::Move { token, patch, computed } => token.epoch == epoch
                    && patch.entity.epoch == epoch && state.shadows.contains_key(
                    patch.entity.protocol_id,
                ) && moved_snapshot(
                    *state.shadows[patch.entity.protocol_id],
                    patch,
                    computed,
                ).finite() && !state.recent.contains((token.epoch, token.name.spec_text())),
                EntityProducerInput::Animation { token, entity, .. } => token.epoch == epoch
                    && entity.epoch == epoch && !state.recent.contains(
                    (token.epoch, token.name.spec_text()),
                ),
                EntityProducerInput::Hurt { token, entity, possible_source } => token.epoch
                    == epoch && entity.epoch == epoch && (possible_source is Some ==> (
                possible_source->0).epoch == epoch) && !state.recent.contains(
                    (token.epoch, token.name.spec_text()),
                ),
                EntityProducerInput::Remove { token, entity } => token.epoch == epoch
                    && entity.epoch == epoch && state.shadows.contains_key(entity.protocol_id)
                    && !state.recent.contains((token.epoch, token.name.spec_text())),
            }
        },
{
}

/// What is told of an observation that is taken: the state that was spawned,
/// updated or reached, the animation, the hurt, or the last state of what is gone.
pub proof fn law_what_observations_tell(
    state: EntityProducerView,
    epoch: u64,
    input: EntityProducerInput,
)
    requires
        state.emitted(epoch, input) is Some,
    ensures
        ({
            let event = state.emitted(epoch, input)->0;
            match input {
                EntityProducerInput::Spawn { snapshot, .. } => event == (
                NormalizedEntityEvent::Spawned { entity: Arc::new(snapshot) }),
                EntityProducerInput::Update { snapshot, .. } => event == (
                NormalizedEntityEvent::Updated {
                    entity: Arc::new(snapshot),
                    changed: ChangedFields::NotReported,
                }),
                EntityProducerInput::Move { patch, computed, .. } => event == (
                NormalizedEntityEvent::Moved {
                    entity: Arc::new(
                        moved_snapshot(
                            *state.shadows[patch.entity.protocol_id],
                            patch,
                            computed,
                        ),
                    ),
                }),
                EntityProducerInput::Animation { entity, animation, .. } => event == (
                NormalizedEntityEvent::Animation { entity, animation }),
                EntityProducerInput::Hurt { entity, possible_source, .. } => event == (
                NormalizedEntityEvent::Hurt { entity, possible_source }),
                EntityProducerInput::Remove { entity, .. } => event == (
                NormalizedEntityEvent::Removed {
                    entity,
                    last: state.shadows[entity.protocol_id],
                }),
            }
        }),
{
}

/// After an observation that is taken its token is remembered, and the entity is
/// known in the state that was told; what is gone is not known. Every other entity
/// is known as before.
pub proof fn law_what_observations_leave(
    state: EntityProducerView,
    epoch: u64,
    input: EntityProducerInput,
    other: i32,
)
    requires
        state.emitted(epoch, input) is Some,
        state.recent.len() <= 1024,
    ensures
        ({
            let after = state.after(epoch, input);
            let id = input.subject().protocol_id;
            &&& after.epoch == Some(epoch)
            &&& after.recent.len() > 0
            &&& after.recent.last() == (
                input.spec_token().epoch,
                input.spec_token().name.spec_text(),
            )
            &&& state.recent.len() < 1024 ==> after.recent.drop_last() == state.recent
            &&& state.recent.len() == 1024 ==> after.recent.drop_last()
                == state.recent.drop_first()
            &&& match state.emitted(epoch, input)->0 {
                NormalizedEntityEvent::Spawned { entity } => after.shadows.contains_key(id)
                    && after.shadows[id] == entity,
                NormalizedEntityEvent::Updated { entity, .. } => after.shadows.contains_key(id)
                    && after.shadows[id] == entity,
                NormalizedEntityEvent::Moved { entity } => after.shadows.contains_key(id)
                    && after.shadows[id] == entity,
                NormalizedEntityEvent::Removed { .. } => !after.shadows.contains_key(id),
                _ => after.shadows == state.shadows,
            }
            &&& other != id ==> after.shadows.contains_key(other) == state.shadows.contains_key(
                other,
            )
            &&& other != id && state.shadows.contains_key(other) ==> after.shadows[other]
                == state.shadows[other]
        }),
{
    let after = state.after(epoch, input);
    let token = input.spec_token().spec_value();
    if state.recent.len() < 1024 {
        assert(after.recent.drop_last() =~= state.recent);
    } else {
        assert(after.recent.drop_last() =~= state.recent.drop_first());
    }
}

/// A new velocity is taken exactly for a known entity of the open scope, under a
/// new token, if it is numbers; it changes the velocity and nothing else.
pub proof fn law_new_velocities_are_taken(
    state: EntityProducerView,
    epoch: u64,
    token: EntityProducerToken,
    entity: EntityIdentity,
    velocity: Vec3Value,
)
    ensures
        ({
            let taken = state.epoch == Some(epoch) && token.epoch == epoch && entity.epoch == epoch
                && state.shadows.contains_key(entity.protocol_id) && velocity.finite() && (
            NormalizedEntitySnapshot {
                velocity,
                ..*state.shadows[entity.protocol_id]
            }).finite() && !state.recent.contains((token.epoch, token.name.spec_text()));
            let after = state.after_velocity(epoch, token, entity, velocity);
            &&& state.admits_velocity(epoch, token, entity, velocity) <==> taken
            &&& !taken ==> after == state
            &&& taken ==> after.shadows == state.shadows.insert(
                entity.protocol_id,
                Arc::new(
                    NormalizedEntitySnapshot {
                        velocity,
                        ..*state.shadows[entity.protocol_id]
                    },
                ),
            )
            &&& taken ==> after.recent.last() == (token.epoch, token.name.spec_text())
        }),
{
}

/// A state can be kept if all its numbers are, in the precision in which they are
/// published, and its slots and counts fit; it can be told if besides no count is
/// negative.
pub proof fn law_what_can_be_kept_and_told(state: NormalizedEntitySnapshot)
    ensures
        state.finite() <==> {
            &&& state.position.x.finite()
            &&& state.position.y.finite()
            &&& state.position.z.finite()
            &&& state.velocity.x.finite()
            &&& state.velocity.y.finite()
            &&& state.velocity.z.finite()
            &&& state.yaw.finite() && state.yaw.finite_as_single()
            &&& state.pitch.finite() && state.pitch.finite_as_single()
            &&& state.head_yaw is Some ==> (state.head_yaw->0).finite() && (
            state.head_yaw->0).finite_as_single()
            &&& state.width.finite() && state.width.finite_as_single()
            &&& state.height.finite() && state.height.finite_as_single()
        },
        state.representable() <==> state.finite() && forall|i: int|
            0 <= i < state.equipment@.len() ==> (#[trigger] state.equipment@[i]).slot <= 255
                && -0x8000_0000 <= state.equipment@[i].count <= 0x7FFF_FFFF,
        state.publishable() <==> state.finite() && forall|i: int|
            0 <= i < state.equipment@.len() ==> (#[trigger] state.equipment@[i]).slot <= 255 && 0
                <= state.equipment@[i].count <= 0x7FFF_FFFF,
{
}

/// What is published of a state is the state, with its angles and measures in
/// single precision.
pub proof fn law_states_are_shown_in_single_precision(state: NormalizedEntitySnapshot)
    ensures
        ({
            let shown = state.shown();
            &&& shown.identity == state.identity
            &&& shown.position == state.position
            &&& shown.velocity == state.velocity
            &&& shown.yaw == state.yaw.single_rounded()
            &&& shown.pitch == state.pitch.single_rounded()
            &&& shown.head_yaw is Some <==> state.head_yaw is Some
            &&& state.head_yaw matches Some(value) ==> shown.head_yaw == Some(
                value.single_rounded(),
            )
            &&& shown.width == state.width.single_rounded()
            &&& shown.height == state.height.single_rounded()
            &&& shown.on_ground == state.on_ground
            &&& shown.entity_type == state.entity_type
            &&& shown.uuid == state.uuid
            &&& shown.name == state.name
            &&& shown.username == state.username
            &&& shown.pose == state.pose
            &&& shown.held_item_name == state.held_item_name
            &&& shown.equipment == state.equipment
            &&& shown.valid == state.valid
        }),
{
}

/// What is published of an event is of the same kind and about the same entity.
pub proof fn law_events_are_shown_as_they_are(event: NormalizedEntityEvent)
    ensures
        match event {
            NormalizedEntityEvent::Spawned { entity } => event.shown() == (
            NormalizedEntityEvent::Spawned { entity: Arc::new(entity.shown()) }),
            NormalizedEntityEvent::Moved { entity } => event.shown() == (
            NormalizedEntityEvent::Moved { entity: Arc::new(entity.shown()) }),
            NormalizedEntityEvent::Updated { entity, changed } => event.shown() == (
            NormalizedEntityEvent::Updated { entity: Arc::new(entity.shown()), changed }),
            NormalizedEntityEvent::Removed { entity, last } => event.shown() == (
            NormalizedEntityEvent::Removed { entity, last: Arc::new(last.shown()) }),
            NormalizedEntityEvent::Animation { .. } => event.shown() == event,
            NormalizedEntityEvent::Hurt { .. } => event.shown() == event,
        },
{
}

/// The key of an entity is its epoch, a colon and its protocol id.
pub proof fn law_keys_are_epoch_and_protocol_id(identity: EntityIdentity)
    ensures
        identity.key_text() == decimal(identity.epoch as nat) + ":"@ + signed_decimal(
            identity.protocol_id as int,
        ),
{
    reveal_strlit(":");
    assert(identity.key_text() =~= decimal(identity.epoch as nat) + ":"@ + signed_decimal(
        identity.protocol_id as int,
    ));
}

/// A step changes the position along the axes it goes, the look if it comes with
/// one, and the ground. Velocity and head stay.
pub proof fn law_what_a_step_changes(
    before: NormalizedEntitySnapshot,
    computed: MoveArithmetic,
    entity: EntityIdentity,
    delta: Option<AxisSteps>,
    look: Option<CompactLook>,
    on_ground: bool,
)
    ensures
        ({
            let patch = EntityMovePatch::step(entity, delta, look, on_ground);
            let after = moved_snapshot(before, patch, computed);
            &&& patch.entity == entity
            &&& patch.delta == delta
            &&& patch.compact_look == look
            &&& !patch.relative_yaw && !patch.relative_pitch && !patch.rotate_velocity
            &&& delta is None ==> after.position == before.position
            &&& delta matches Some(step) ==> {
                &&& step.x == 0 ==> after.position.x == before.position.x
                &&& step.x != 0 ==> after.position.x == computed.position.x
                &&& step.y == 0 ==> after.position.y == before.position.y
                &&& step.y != 0 ==> after.position.y == computed.position.y
                &&& step.z == 0 ==> after.position.z == before.position.z
                &&& step.z != 0 ==> after.position.z == computed.position.z
            }
            &&& look is None ==> after.yaw == before.yaw && after.pitch == before.pitch
            &&& look is Some ==> after.yaw == computed.yaw && after.pitch == computed.pitch
            &&& after.velocity == before.velocity
            &&& after.head_yaw == before.head_yaw
            &&& after.on_ground == on_ground
        }),
{
}

/// A teleport sets what is absolute of it and adds up what is relative; the head
/// stays.
pub proof fn law_what_a_teleport_changes(
    before: NormalizedEntitySnapshot,
    computed: MoveArithmetic,
    entity: EntityIdentity,
    position: Vec3Value,
    look: WideLook,
    relative_position: AxisFlags,
    relative_yaw: bool,
    relative_pitch: bool,
    velocity: Vec3Value,
    relative_velocity: AxisFlags,
    rotate_velocity: bool,
    on_ground: bool,
)
    ensures
        ({
            let patch = EntityMovePatch::leap(
                entity,
                position,
                look,
                relative_position,
                relative_yaw,
                relative_pitch,
                velocity,
                relative_velocity,
                rotate_velocity,
                on_ground,
            );
            let after = moved_snapshot(before, patch, computed);
            &&& patch.entity == entity
            &&& patch.absolute_look == Some(look)
            &&& patch.relative_pitch == relative_pitch
            &&& patch.rotate_velocity == rotate_velocity
            &&& relative_position.x ==> after.position.x == computed.position.x
            &&& !relative_position.x ==> after.position.x == position.x
            &&& relative_position.y ==> after.position.y == computed.position.y
            &&& !relative_position.y ==> after.position.y == position.y
            &&& relative_position.z ==> after.position.z == computed.position.z
            &&& !relative_position.z ==> after.position.z == position.z
            &&& relative_velocity.x ==> after.velocity.x == computed.velocity.x
            &&& !relative_velocity.x ==> after.velocity.x == velocity.x
            &&& relative_velocity.y ==> after.velocity.y == computed.velocity.y
            &&& !relative_velocity.y ==> after.velocity.y == velocity.y
            &&& relative_velocity.z ==> after.velocity.z == computed.velocity.z
            &&& !relative_velocity.z ==> after.velocity.z == velocity.z
            &&& relative_yaw ==> after.yaw == computed.yaw
            &&& !relative_yaw ==> after.yaw == look.yaw
            &&& after.pitch == computed.pitch
            &&& after.head_yaw == before.head_yaw
            &&& after.on_ground == on_ground
        }),
{
}

/// A correction replaces position, look, velocity and ground, whatever they were;
/// nothing of it is relative. The head stays.
pub proof fn law_what_a_correction_changes(
    before: NormalizedEntitySnapshot,
    computed: MoveArithmetic,
    entity: EntityIdentity,
    position: Vec3Value,
    look: WideLook,
    velocity: Vec3Value,
    on_ground: bool,
)
    ensures
        ({
            let patch = EntityMovePatch::correction(entity, position, look, velocity, on_ground);
            let after = moved_snapshot(before, patch, computed);
            &&& patch.entity == entity
            &&& patch.absolute_look == Some(look)
            &&& !patch.relative_pitch
            &&& !patch.rotate_velocity
            &&& after.position == position
            &&& after.velocity == velocity
            &&& after.yaw == look.yaw
            &&& after.pitch == computed.pitch
            &&& after.head_yaw == before.head_yaw
            &&& after.on_ground == on_ground
        }),
{
}

/// A turn of the head changes nothing but the head.
pub proof fn law_what_a_head_turn_changes(
    before: NormalizedEntitySnapshot,
    computed: MoveArithmetic,
    entity: EntityIdentity,
    head_yaw: i8,
)
    ensures
        ({
            let patch = EntityMovePatch::head_turn(entity, head_yaw);
            let after = moved_snapshot(before, patch, computed);
            &&& patch.entity == entity
            &&& patch.head_yaw == Some(head_yaw)
            &&& !patch.relative_yaw && !patch.relative_pitch && !patch.rotate_velocity
            &&& after.head_yaw == Some(computed.head_yaw)
            &&& after.position == before.position
            &&& after.velocity == before.velocity
            &&& after.yaw == before.yaw
            &&& after.pitch == before.pitch
            &&& after.on_ground == before.on_ground
        }),
{
}

} // verus!
