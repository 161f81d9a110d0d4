//! The facts of one frame: snapshot, armor and light, captured together.

use std::sync::Arc;

use vstd::prelude::*;

use crate::contract::{AttemptId, BackendEventPayload, FactSource, SnapshotGroup};
use crate::entity_events::NormalizedEntitySnapshot;
use crate::lanes::successor;
use crate::light::{chunk_key, LightSectionGeometry, LightUpdateData, LightView};
use crate::snapshot::MinecraftSnapshotV1;
use crate::state::{
    next_number, CanonicalSourceAdmission, RuntimeCounters, RuntimeView, SharedRuntime,
};
use crate::time::UtcInstant;
use crate::tracking::{
    merge_refreshed_tracked_entities, refreshed_entities, surviving_residuals,
    EntityObservationResidual, ObservationState, ObservationView,
};

verus! {

/// One attribute of an attribute packet: whether it is the armor, and what its
/// modifiers add up to.
#[derive(Clone, Copy, Debug, PartialEq, Eq, Structural)]
pub struct AttributeReading {
    pub is_armor: bool,
    pub value: Option<u8>,
}

/// The armor that a packet reports; the last armor attribute counts.
pub open spec fn reported_armor(readings: Seq<AttributeReading>) -> Option<Option<u8>>
    decreases readings.len(),
{
    if readings.len() == 0 {
        None
    } else if readings.last().is_armor {
        Some(readings.last().value)
    } else {
        reported_armor(readings.drop_last())
    }
}

/// The armor that a packet reports, if it reports armor at all.
pub fn armor_of(readings: &Vec<AttributeReading>) -> (armor: Option<Option<u8>>)
    ensures
        armor == reported_armor(readings@),
{
    let mut armor: Option<Option<u8>> = None;
    let mut i: usize = 0;
    while i < readings.len()
        invariant
            i <= readings@.len(),
            armor == reported_armor(readings@.take(i as int)),
        decreases readings@.len() - i,
    {
        proof {
            assert(readings@.take(i + 1).drop_last() =~= readings@.take(i as int));
            assert(readings@.take(i + 1).last() == readings@[i as int]);
        }
        if readings[i].is_armor {
            armor = Some(readings[i].value);
        }
        i = i + 1;
    }
    assert(readings@.take(i as int) =~= readings@);
    armor
}

/// What a snapshot is captured against.
#[derive(Debug, PartialEq, Eq)]
pub struct RefreshStamp {
    pub generation: u64,
    pub process_session_id: String,
    pub connection_epoch: u64,
    pub connection_attempt_id: AttemptId,
    pub next_revision: u64,
    pub lifecycle_revision: u64,
}

/// Snapshot, armor and light of one moment.
#[derive(Debug, PartialEq, Eq)]
pub struct RuntimeFrameFacts {
    pub snapshot: Arc<MinecraftSnapshotV1>,
    pub armor: Option<u8>,
    pub light: Option<u8>,
}

impl ObservationView {
    pub open spec fn with_armor(self, armor: Option<u8>, epoch: u64) -> ObservationView {
        ObservationView { armor, armor_epoch: Some(epoch), ..self }.bumped()
    }

    /// The skylight that the light cache knows of.
    pub open spec fn known_skylight(self) -> Option<bool> {
        match self.light.context {
            Some(context) => context.has_skylight,
            None => None,
        }
    }

    /// A light packet of this scope and dimension fits the cache.
    pub open spec fn takes_light(
        self,
        source: CanonicalSourceAdmission,
        dimension: String,
        geometry: LightSectionGeometry,
    ) -> bool {
        self.light.accepts(
            source.epoch,
            source.scope_generation,
            dimension,
            self.known_skylight(),
            geometry,
        )
    }

    pub open spec fn with_light(
        self,
        source: CanonicalSourceAdmission,
        dimension: String,
        geometry: LightSectionGeometry,
        chunk_x: i32,
        chunk_z: i32,
        data: LightUpdateData,
        replace_chunk: bool,
    ) -> ObservationView {
        ObservationView {
            light: self.light.applied(
                self.light.context_after(
                    source.epoch,
                    source.scope_generation,
                    dimension,
                    self.known_skylight(),
                    geometry,
                ),
                chunk_key(chunk_x as int, chunk_z as int),
                geometry,
                data,
                self.known_skylight(),
                replace_chunk,
            ),
            ..self
        }.bumped()
    }

    pub open spec fn without_light(self, chunk_x: i32, chunk_z: i32) -> ObservationView {
        ObservationView {
            light: LightView {
                chunks: self.light.chunks.remove(chunk_key(chunk_x as int, chunk_z as int)),
                ..self.light
            },
            ..self
        }.bumped()
    }

    /// Another world replaces the published one. The light cache stays only if
    /// it is provably of the same scope.
    pub open spec fn with_world(self, world: u64, keep_light: bool) -> ObservationView {
        if self.world == Some(world) {
            self.bumped()
        } else {
            let emptied = self.without_world();
            ObservationView {
                world: Some(world),
                light: if keep_light {
                    self.light
                } else {
                    LightView::empty()
                },
                ..emptied
            }.bumped()
        }
    }

    /// A fresh capture replaces the published entities.
    pub open spec fn with_entities(
        self,
        captured: Seq<Arc<NormalizedEntitySnapshot>>,
        epoch: u64,
    ) -> ObservationView {
        ObservationView {
            tracked_entities: refreshed_entities(captured, self.entity_residuals, epoch),
            entity_residuals: surviving_residuals(self.entity_residuals, captured, epoch),
            ..self
        }
    }

    /// A fresh snapshot replaces the published one.
    pub open spec fn with_snapshot(
        self,
        snapshot: Arc<MinecraftSnapshotV1>,
        scope_generation: u64,
        source: FactSource,
    ) -> ObservationView {
        ObservationView {
            snapshot: Some(snapshot),
            snapshot_scope_generation: scope_generation,
            source: Some(source),
            ..self
        }
    }

    /// The facts of one frame, all of the same published state.
    pub open spec fn frame_facts(self) -> Option<RuntimeFrameFacts> {
        match self.snapshot {
            None => None,
            Some(snapshot) => Some(
                RuntimeFrameFacts {
                    snapshot,
                    armor: if self.armor_epoch == Some(snapshot.connection_epoch) {
                        self.armor
                    } else {
                        None
                    },
                    light: self.light.value(
                        snapshot.self_snapshot.position,
                        snapshot.connection_epoch,
                        self.snapshot_scope_generation,
                        snapshot.world.dimension@,
                    ),
                },
            ),
        }
    }
}

impl RuntimeView {
    pub open spec fn with_observation(self, observation: ObservationView) -> RuntimeView {
        RuntimeView { observation, ..self }
    }

    /// A stamped packet may change the frame now.
    pub open spec fn frame_open(self, source: CanonicalSourceAdmission) -> bool {
        self.source_valid(source) && self.running()
    }

    pub open spec fn armor_applied(
        self,
        source: CanonicalSourceAdmission,
        readings: Seq<AttributeReading>,
    ) -> (RuntimeView, bool) {
        match reported_armor(readings) {
            Some(armor) => if self.frame_open(source) {
                (
                    self.with_observation(self.observation.with_armor(armor, source.epoch)),
                    true,
                )
            } else {
                (self, false)
            },
            None => (self, false),
        }
    }

    /// A light packet fits the current scope.
    pub open spec fn light_fits(
        self,
        source: CanonicalSourceAdmission,
        geometry: LightSectionGeometry,
    ) -> bool {
        self.frame_open(source) && self.writer.dimension is Some && self.observation.takes_light(
            source,
            self.writer.dimension->0,
            geometry,
        )
    }

    pub open spec fn light_applied(
        self,
        source: CanonicalSourceAdmission,
        geometry: LightSectionGeometry,
        chunk_x: i32,
        chunk_z: i32,
        data: LightUpdateData,
        replace_chunk: bool,
    ) -> RuntimeView {
        if self.light_fits(source, geometry) {
            self.with_observation(
                self.observation.with_light(
                    source,
                    self.writer.dimension->0,
                    geometry,
                    chunk_x,
                    chunk_z,
                    data,
                    replace_chunk,
                ),
            )
        } else {
            self
        }
    }

    pub open spec fn light_chunk_known(self, source: CanonicalSourceAdmission) -> bool {
        self.frame_open(source) && self.writer.dimension is Some
            && self.observation.light.in_context(
            source.epoch,
            source.scope_generation,
            (self.writer.dimension->0)@,
        )
    }

    pub open spec fn light_chunk_removed(
        self,
        source: CanonicalSourceAdmission,
        chunk_x: i32,
        chunk_z: i32,
    ) -> RuntimeView {
        if self.light_chunk_known(source) {
            self.with_observation(self.observation.without_light(chunk_x, chunk_z))
        } else {
            self
        }
    }

    /// The light cache is of the current owner's scope and dimension.
    pub open spec fn light_is_current(self) -> bool {
        &&& self.producer.owner matches Some((_, epoch)) && epoch == self.epoch()
        &&& self.writer.dimension is Some
        &&& self.observation.light.in_context(
            self.epoch(),
            self.producer.scope_generation,
            (self.writer.dimension->0)@,
        )
    }

    pub open spec fn world_set(self, world: u64) -> RuntimeView {
        if self.running() {
            self.with_observation(self.observation.with_world(world, self.light_is_current()))
        } else {
            self
        }
    }

    /// A capture may be published: nothing has changed since its stamp.
    pub open spec fn refresh_holds(self, stamp: RefreshStamp) -> bool {
        self.epoch() == stamp.connection_epoch && self.running() && self.observation.generation
            == stamp.generation
    }

    /// A capture is published. Unless forced, a snapshot of an unchanged state
    /// only refreshes the entities.
    pub open spec fn refreshed(
        self,
        stamp: RefreshStamp,
        candidate: Arc<MinecraftSnapshotV1>,
        captured: Seq<Arc<NormalizedEntitySnapshot>>,
        same_state: bool,
        force: bool,
        source: FactSource,
    ) -> (RuntimeView, Option<Arc<MinecraftSnapshotV1>>) {
        if !self.refresh_holds(stamp) {
            (self, None)
        } else {
            let updated = self.observation.with_entities(captured, stamp.connection_epoch);
            if force || self.observation.snapshot is None || !same_state {
                (
                    RuntimeView {
                        counters: RuntimeCounters {
                            snapshot_revision: stamp.next_revision,
                            ..self.counters
                        },
                        observation: updated.with_snapshot(
                            candidate,
                            self.producer.scope_generation,
                            source,
                        ).bumped(),
                        ..self
                    },
                    Some(candidate),
                )
            } else {
                (self.with_observation(updated.bumped()), None)
            }
        }
    }
}

impl ObservationState {
    fn put_armor(&mut self, armor: Option<u8>, epoch: u64)
        ensures
            final(self)@ == old(self)@.with_armor(armor, epoch),
    {
        self.armor = armor;
        self.armor_epoch = Some(epoch);
        self.bump_generation();
    }

    fn put_light(
        &mut self,
        source: CanonicalSourceAdmission,
        dimension: String,
        geometry: LightSectionGeometry,
        chunk_x: i32,
        chunk_z: i32,
        data: &LightUpdateData,
        replace_chunk: bool,
    ) -> (taken: bool)
        ensures
            taken == old(self)@.takes_light(source, dimension, geometry),
            final(self)@ == (if taken {
                old(self)@.with_light(
                    source,
                    dimension,
                    geometry,
                    chunk_x,
                    chunk_z,
                    *data,
                    replace_chunk,
                )
            } else {
                old(self)@
            }),
    {
        let has_skylight = self.light_cache.has_skylight();
        if !self.light_cache.apply_packet(
            source.epoch,
            source.scope_generation,
            dimension,
            has_skylight,
            geometry,
            chunk_x,
            chunk_z,
            data,
            replace_chunk,
        ) {
            return false;
        }
        self.bump_generation();
        true
    }

    fn drop_light(
        &mut self,
        source: CanonicalSourceAdmission,
        dimension: &String,
        chunk_x: i32,
        chunk_z: i32,
    ) -> (taken: bool)
        ensures
            taken == old(self)@.light.in_context(
                source.epoch,
                source.scope_generation,
                dimension@,
            ),
            final(self)@ == (if taken {
                old(self)@.without_light(chunk_x, chunk_z)
            } else {
                old(self)@
            }),
    {
        if !self.light_cache.remove_chunk(
            source.epoch,
            source.scope_generation,
            dimension,
            chunk_x,
            chunk_z,
        ) {
            return false;
        }
        self.bump_generation();
        true
    }

    fn put_world(&mut self, world: u64, keep_light: bool)
        ensures
            final(self)@ == old(self)@.with_world(world, keep_light),
    {
        let replaced = match self.world {
            Some(current) => current != world,
            None => true,
        };
        if replaced {
            self.clear_world();
            self.world = Some(world);
            if !keep_light {
                self.light_cache.clear();
            }
        }
        self.bump_generation();
    }

    fn put_entities(&mut self, captured: Vec<Arc<NormalizedEntitySnapshot>>, epoch: u64)
        ensures
            final(self)@ == old(self)@.with_entities(captured@, epoch),
    {
        let (entities, residuals) = merge_refreshed_tracked_entities(
            captured,
            &self.entity_residuals,
            epoch,
        );
        self.tracked_entities = entities;
        self.entity_residuals = residuals;
    }

    fn put_snapshot(
        &mut self,
        snapshot: Arc<MinecraftSnapshotV1>,
        scope_generation: u64,
        source: FactSource,
    )
        ensures
            final(self)@ == old(self)@.with_snapshot(snapshot, scope_generation, source),
    {
        self.snapshot = Some(snapshot);
        self.snapshot_scope_generation = scope_generation;
        self.source = Some(source);
    }

    /// The facts of one frame, all of the same published state.
    pub fn capture_frame_facts(&self) -> (facts: Option<RuntimeFrameFacts>)
        ensures
            facts == self@.frame_facts(),
    {
        match &self.snapshot {
            None => None,
            Some(snapshot) => {
                let armor = match self.armor_epoch {
                    Some(epoch) => if epoch == snapshot.connection_epoch {
                        self.armor
                    } else {
                        None
                    },
                    None => None,
                };
                let light = self.light_cache.value_at(
                    &snapshot.self_snapshot.position,
                    snapshot.connection_epoch,
                    self.snapshot_scope_generation,
                    &snapshot.world.dimension,
                );
                Some(RuntimeFrameFacts { snapshot: snapshot.clone(), armor, light })
            },
        }
    }
}

impl SharedRuntime {
    fn is_frame_open(&self, source: CanonicalSourceAdmission) -> (r: bool)
        ensures
            r == self@.frame_open(source),
    {
        self.canonical_source_still_valid(source) && self.command_execution_allowed()
    }

    /// Takes the armor of an attribute packet at the place where it was stamped.
    pub fn apply_armor_packet(
        &mut self,
        source: CanonicalSourceAdmission,
        readings: &Vec<AttributeReading>,
    ) -> (taken: bool)
        requires
            old(self)@.wf(),
        ensures
            (final(self)@, taken) == old(self)@.armor_applied(source, readings@),
            final(self)@.wf(),
    {
        match armor_of(readings) {
            Some(armor) => {
                if !self.is_frame_open(source) {
                    return false;
                }
                self.observation.put_armor(armor, source.epoch);
                true
            },
            None => false,
        }
    }

    /// Takes the light of a packet at the place where it was stamped. A scope
    /// that was reset since refuses it.
    pub fn apply_light_packet(
        &mut self,
        source: CanonicalSourceAdmission,
        geometry: LightSectionGeometry,
        chunk_x: i32,
        chunk_z: i32,
        data: &LightUpdateData,
        replace_chunk: bool,
    ) -> (taken: bool)
        requires
            old(self)@.wf(),
        ensures
            taken == old(self)@.light_fits(source, geometry),
            final(self)@ == old(self)@.light_applied(
                source,
                geometry,
                chunk_x,
                chunk_z,
                *data,
                replace_chunk,
            ),
            final(self)@.wf(),
    {
        if !self.is_frame_open(source) {
            return false;
        }
        match self.writer.dimension.clone() {
            None => false,
            Some(dimension) => {
                self.observation.put_light(
                    source,
                    dimension,
                    geometry,
                    chunk_x,
                    chunk_z,
                    data,
                    replace_chunk,
                )
            },
        }
    }

    /// Forgets the light of a chunk that was unloaded.
    pub fn remove_light_chunk(
        &mut self,
        source: CanonicalSourceAdmission,
        chunk_x: i32,
        chunk_z: i32,
    ) -> (taken: bool)
        requires
            old(self)@.wf(),
        ensures
            taken == old(self)@.light_chunk_known(source),
            final(self)@ == old(self)@.light_chunk_removed(source, chunk_x, chunk_z),
            final(self)@.wf(),
    {
        if !self.is_frame_open(source) {
            return false;
        }
        match self.writer.dimension.clone() {
            None => false,
            Some(dimension) => {
                self.observation.drop_light(source, &dimension, chunk_x, chunk_z)
            },
        }
    }

    fn is_light_current(&self) -> (r: bool)
        ensures
            r == self@.light_is_current(),
    {
        let epoch: u64 = self.writer.connection_epoch;
        let owned = match self.producer.owner {
            Some(owner) => owner.1 == epoch,
            None => false,
        };
        match &self.writer.dimension {
            Some(dimension) => owned && self.observation.light_cache.context_matches(
                epoch,
                self.producer.scope_generation,
                dimension,
            ),
            None => false,
        }
    }

    /// Publishes the world that the player is in.
    pub fn set_world_if_running(&mut self, world: u64) -> (set: bool)
        requires
            old(self)@.wf(),
        ensures
            set == old(self)@.running(),
            final(self)@ == old(self)@.world_set(world),
            final(self)@.wf(),
    {
        if !self.command_execution_allowed() {
            return false;
        }
        let keep_light = self.is_light_current();
        self.observation.put_world(world, keep_light);
        true
    }

    /// Stamps a capture that is about to begin.
    pub fn begin_refresh(&self) -> (stamp: RefreshStamp)
        ensures
            stamp == (RefreshStamp {
                generation: self@.observation.generation,
                process_session_id: self@.writer.process_session_id,
                connection_epoch: self@.epoch(),
                connection_attempt_id: self@.writer.connection_attempt_id,
                next_revision: successor(self@.counters.snapshot_revision),
                lifecycle_revision: self@.counters.lifecycle_revision,
            }),
    {
        RefreshStamp {
            generation: self.observation.generation,
            process_session_id: self.writer.process_session_id.clone(),
            connection_epoch: self.writer.connection_epoch,
            connection_attempt_id: self.writer.connection_attempt_id,
            next_revision: next_number(self.counters.snapshot_revision),
            lifecycle_revision: self.counters.lifecycle_revision,
        }
    }

    fn publish_capture(
        &mut self,
        stamp: &RefreshStamp,
        candidate: Option<Arc<MinecraftSnapshotV1>>,
        captured: Vec<Arc<NormalizedEntitySnapshot>>,
        source: FactSource,
    )
        requires
            old(self)@.wf(),
        ensures
            final(self)@.observation == (match candidate {
                Some(snapshot) => old(self)@.observation.with_entities(
                    captured@,
                    stamp.connection_epoch,
                ).with_snapshot(snapshot, old(self)@.producer.scope_generation, source),
                None => old(self)@.observation.with_entities(captured@, stamp.connection_epoch),
            }).bumped(),
            final(self)@ == (RuntimeView {
                observation: final(self)@.observation,
                counters: final(self)@.counters,
                ..old(self)@
            }),
            final(self)@.counters == (if candidate is Some {
                RuntimeCounters {
                    snapshot_revision: stamp.next_revision,
                    ..old(self)@.counters
                }
            } else {
                old(self)@.counters
            }),
            final(self)@.wf(),
    {
        proof {
            let epoch = stamp.connection_epoch;
            self@.observation.entity_residuals.lemma_filter_len(
                |r: EntityObservationResidual|
                    crate::tracking::residual_survives(r, captured@, epoch),
            );
        }
        let scope_generation: u64 = self.producer.scope_generation;
        self.observation.put_entities(captured, stamp.connection_epoch);
        if let Some(snapshot) = candidate {
            self.counters.snapshot_revision = stamp.next_revision;
            self.observation.put_snapshot(snapshot, scope_generation, source);
        }
        self.observation.bump_generation();
    }

    /// Publishes a capture, unless anything has changed since it was stamped.
    /// Whether the captured state is the published one is told from outside.
    pub fn finish_refresh(
        &mut self,
        stamp: &RefreshStamp,
        candidate: Arc<MinecraftSnapshotV1>,
        captured: Vec<Arc<NormalizedEntitySnapshot>>,
        same_state: bool,
        force: bool,
        source: FactSource,
    ) -> (published: Option<Arc<MinecraftSnapshotV1>>)
        requires
            old(self)@.wf(),
        ensures
            (final(self)@, published) == old(self)@.refreshed(
                *stamp,
                candidate,
                captured@,
                same_state,
                force,
                source,
            ),
            final(self)@.wf(),
    {
        if self.writer.connection_epoch != stamp.connection_epoch
            || !self.command_execution_allowed() || self.observation.generation
            != stamp.generation {
            return None;
        }
        let changed = self.observation.snapshot.is_none() || !same_state;
        if force || changed {
            self.publish_capture(stamp, Some(candidate.clone()), captured, source);
            Some(candidate)
        } else {
            self.publish_capture(stamp, None, captured, source);
            None
        }
    }

    /// The published snapshot.
    pub fn stored_snapshot(&self) -> (snapshot: Option<Arc<MinecraftSnapshotV1>>)
        ensures
            snapshot == self@.observation.snapshot,
    {
        match &self.observation.snapshot {
            Some(snapshot) => Some(snapshot.clone()),
            None => None,
        }
    }

    /// Reports that a snapshot was published.
    pub fn emit_snapshot(
        &mut self,
        snapshot: &Arc<MinecraftSnapshotV1>,
        source: FactSource,
        at: UtcInstant,
    )
        requires
            old(self)@.wf(),
        ensures
            final(self)@ == old(self)@.emitted_if_running(
                source,
                BackendEventPayload::SnapshotChanged {
                    group: SnapshotGroup::World,
                    snapshot_revision: snapshot.snapshot_revision,
                },
                at,
            ),
            final(self)@.wf(),
    {
        let _ = self.emit_if_running(
            source,
            BackendEventPayload::SnapshotChanged {
                group: SnapshotGroup::World,
                snapshot_revision: snapshot.snapshot_revision,
            },
            at,
        );
    }
}

/// Armor that was read in another epoch is never part of a frame.
pub proof fn law_armor_is_of_the_frames_epoch(observation: ObservationView)
    ensures
        observation.frame_facts() matches Some(facts) ==> facts.armor is Some ==> (
        observation.armor_epoch == Some(facts.snapshot.connection_epoch) && facts.armor
            == observation.armor),
{
}

/// Light that was cached in another epoch or scope is never part of a frame.
pub proof fn law_light_is_of_the_frames_scope(observation: ObservationView)
    ensures
        observation.frame_facts() matches Some(facts) ==> facts.light is Some
            ==> observation.light.in_context(
            facts.snapshot.connection_epoch,
            observation.snapshot_scope_generation,
            facts.snapshot.world.dimension@,
        ),
{
}

/// A packet that was stamped before its scope was reset changes no frame.
pub proof fn law_stale_stamps_change_no_frame(
    runtime: RuntimeView,
    source: CanonicalSourceAdmission,
    readings: Seq<AttributeReading>,
    geometry: LightSectionGeometry,
    chunk_x: i32,
    chunk_z: i32,
    data: LightUpdateData,
    replace_chunk: bool,
)
    requires
        runtime.epoch() != source.epoch || runtime.producer.scope_generation
            != source.scope_generation,
    ensures
        runtime.armor_applied(source, readings) == (runtime, false),
        runtime.light_applied(source, geometry, chunk_x, chunk_z, data, replace_chunk) == runtime,
        runtime.light_chunk_removed(source, chunk_x, chunk_z) == runtime,
{
}

/// A capture that began before anything else was published is not published.
pub proof fn law_late_captures_are_dropped(
    runtime: RuntimeView,
    stamp: RefreshStamp,
    candidate: Arc<MinecraftSnapshotV1>,
    captured: Seq<Arc<NormalizedEntitySnapshot>>,
    same_state: bool,
    force: bool,
    source: FactSource,
)
    requires
        runtime.observation.generation != stamp.generation || runtime.epoch()
            != stamp.connection_epoch,
    ensures
        runtime.refreshed(stamp, candidate, captured, same_state, force, source) == (
            runtime,
            None::<Arc<MinecraftSnapshotV1>>,
        ),
{
}

/// Of the armor attributes in a packet the last one counts; a packet without one
/// reports no armor.
pub proof fn law_the_last_armor_counts(readings: Seq<AttributeReading>, i: int)
    requires
        0 <= i < readings.len(),
        readings[i].is_armor,
        forall|j: int| i < j < readings.len() ==> !(#[trigger] readings[j]).is_armor,
    ensures
        reported_armor(readings) == Some(readings[i].value),
    decreases readings.len(),
{
    if i < readings.len() - 1 {
        let rest = readings.drop_last();
        assert(rest[i] == readings[i]);
        assert forall|j: int| i < j < rest.len() implies !(#[trigger] rest[j]).is_armor by {
            assert(rest[j] == readings[j]);
        }
        law_the_last_armor_counts(rest, i);
    }
}

/// A packet without an armor attribute reports no armor and changes nothing.
pub proof fn law_other_attributes_are_no_armor(
    runtime: RuntimeView,
    source: CanonicalSourceAdmission,
    readings: Seq<AttributeReading>,
)
    requires
        forall|i: int| 0 <= i < readings.len() ==> !(#[trigger] readings[i]).is_armor,
    ensures
        reported_armor(readings) is None,
        runtime.armor_applied(source, readings) == (runtime, false),
    decreases readings.len(),
{
    if readings.len() > 0 {
        let rest = readings.drop_last();
        assert forall|i: int| 0 <= i < rest.len() implies !(#[trigger] rest[i]).is_armor by {
            assert(rest[i] == readings[i]);
        }
        law_other_attributes_are_no_armor(runtime, source, rest);
    }
}

/// A packet speaks for the stream as it is now: of the current epoch, owner and
/// scope, under the token that is bound to the epoch, while the runtime runs.
pub open spec fn speaks_now(runtime: RuntimeView, source: CanonicalSourceAdmission) -> bool {
    &&& !runtime.flags.stopping
    &&& !runtime.flags.disconnect_reported
    &&& runtime.writer.connection_epoch == source.epoch
    &&& runtime.producer.owner == Some((source.entity, source.epoch))
    &&& runtime.producer.scope_generation == source.scope_generation
    &&& source.attempt_token matches Some(token) && runtime.producer.bindings.contains(
        (token, source.epoch),
    )
}

/// Armor that is told is what the next frame of this epoch shows.
pub proof fn law_told_armor_is_shown(
    runtime: RuntimeView,
    source: CanonicalSourceAdmission,
    readings: Seq<AttributeReading>,
    i: int,
)
    requires
        speaks_now(runtime, source),
        0 <= i < readings.len(),
        readings[i].is_armor,
        forall|j: int| i < j < readings.len() ==> !(#[trigger] readings[j]).is_armor,
    ensures
        ({
            let (after, taken) = runtime.armor_applied(source, readings);
            &&& taken
            &&& after.observation.generation != runtime.observation.generation
            &&& after == (RuntimeView {
                observation: ObservationView {
                    generation: after.observation.generation,
                    armor: readings[i].value,
                    armor_epoch: Some(source.epoch),
                    ..runtime.observation
                },
                ..runtime
            })
            &&& runtime.observation.snapshot matches Some(snapshot) ==> snapshot.connection_epoch
                == source.epoch ==> (after.observation.frame_facts() matches Some(facts)
                && facts.armor == readings[i].value && facts.snapshot == snapshot)
        }),
{
    law_the_last_armor_counts(readings, i);
}

/// A packet of a stream that is not the current one tells no armor.
pub proof fn law_armor_of_others_is_refused(
    runtime: RuntimeView,
    source: CanonicalSourceAdmission,
    readings: Seq<AttributeReading>,
)
    requires
        runtime.flags.stopping || runtime.flags.disconnect_reported
            || runtime.writer.connection_epoch != source.epoch || runtime.producer.owner != Some(
            (source.entity, source.epoch),
        ) || runtime.producer.scope_generation != source.scope_generation || (
        source.attempt_token matches Some(token) && !runtime.producer.bindings.contains(
            (token, source.epoch),
        )),
    ensures
        runtime.armor_applied(source, readings) == (runtime, false),
{
}

/// A frame holds the published snapshot, and the light at the player's position
/// in that snapshot's epoch, scope and dimension.
pub proof fn law_a_frame_is_of_one_moment(observation: ObservationView)
    ensures
        observation.frame_facts() is None <==> observation.snapshot is None,
        observation.frame_facts() matches Some(facts) ==> {
            &&& observation.snapshot == Some(facts.snapshot)
            &&& facts.light == observation.light.value(
                facts.snapshot.self_snapshot.position,
                facts.snapshot.connection_epoch,
                observation.snapshot_scope_generation,
                facts.snapshot.world.dimension@,
            )
            &&& observation.armor_epoch == Some(facts.snapshot.connection_epoch) ==> facts.armor
                == observation.armor
            &&& observation.armor_epoch != Some(facts.snapshot.connection_epoch)
                ==> facts.armor is None
        },
{
}

/// When the player is in another world, nothing of the one before is published:
/// its snapshot, its entities and what packets told of them are withdrawn. Its
/// light stays only if it is of the current epoch, scope and dimension.
pub proof fn law_another_world_replaces_the_published_one(runtime: RuntimeView, world: u64)
    requires
        !runtime.flags.stopping,
        !runtime.flags.disconnect_reported,
        runtime.observation.world != Some(world),
    ensures
        ({
            let after = runtime.world_set(world).observation;
            let current = match (
                runtime.producer.owner,
                runtime.writer.dimension,
                runtime.observation.light.context,
            ) {
                (Some((_, owned)), Some(dimension), Some(context)) => owned
                    == runtime.writer.connection_epoch && context.epoch
                    == runtime.writer.connection_epoch && context.scope_generation
                    == runtime.producer.scope_generation && context.dimension@ == dimension@,
                _ => false,
            };
            &&& after.world == Some(world)
            &&& after.snapshot is None
            &&& after.snapshot_scope_generation == 0
            &&& after.source is None
            &&& after.tracked_entities.len() == 0
            &&& after.entity_residuals.len() == 0
            &&& after.armor == runtime.observation.armor
            &&& after.armor_epoch == runtime.observation.armor_epoch
            &&& after.generation != runtime.observation.generation
            &&& current ==> after.light == runtime.observation.light
            &&& !current ==> after.light == LightView::empty()
            &&& runtime.world_set(world) == (RuntimeView { observation: after, ..runtime })
        }),
{
}

/// Being told of the same world again withdraws nothing.
pub proof fn law_the_same_world_stays(runtime: RuntimeView, world: u64)
    requires
        !runtime.flags.stopping,
        !runtime.flags.disconnect_reported,
        runtime.observation.world == Some(world),
    ensures
        runtime.world_set(world) == (RuntimeView {
            observation: ObservationView {
                generation: runtime.world_set(world).observation.generation,
                ..runtime.observation
            },
            ..runtime
        }),
        runtime.world_set(world).observation.generation != runtime.observation.generation,
{
}

/// A runtime that is stopping or disconnected publishes no world.
pub proof fn law_no_world_after_the_end(runtime: RuntimeView, world: u64)
    requires
        runtime.flags.stopping || runtime.flags.disconnect_reported,
    ensures
        runtime.world_set(world) == runtime,
{
}

/// A capture that is still current is published if it is the first, shows another
/// state or has to be: under its revision, of the current scope, with its source.
/// Otherwise only the entities are refreshed. Either way whoever looks again sees
/// that something has changed.
pub proof fn law_current_captures_are_published(
    runtime: RuntimeView,
    stamp: RefreshStamp,
    candidate: Arc<MinecraftSnapshotV1>,
    captured: Seq<Arc<NormalizedEntitySnapshot>>,
    same_state: bool,
    force: bool,
    source: FactSource,
)
    requires
        !runtime.flags.stopping,
        !runtime.flags.disconnect_reported,
        runtime.writer.connection_epoch == stamp.connection_epoch,
        runtime.observation.generation == stamp.generation,
    ensures
        ({
            let (after, published) = runtime.refreshed(
                stamp,
                candidate,
                captured,
                same_state,
                force,
                source,
            );
            let news = force || !same_state || runtime.observation.snapshot is None;
            &&& published == (if news {
                Some(candidate)
            } else {
                None
            })
            &&& news ==> after.observation.snapshot == Some(candidate)
            &&& news ==> after.observation.snapshot_scope_generation
                == runtime.producer.scope_generation
            &&& news ==> after.observation.source == Some(source)
            &&& !news ==> after.observation.snapshot == runtime.observation.snapshot
            &&& !news ==> after.observation.snapshot_scope_generation
                == runtime.observation.snapshot_scope_generation
            &&& !news ==> after.observation.source == runtime.observation.source
            &&& after.counters == (RuntimeCounters {
                snapshot_revision: if news {
                    stamp.next_revision
                } else {
                    runtime.counters.snapshot_revision
                },
                ..runtime.counters
            })
            &&& after.observation.tracked_entities == refreshed_entities(
                captured,
                runtime.observation.entity_residuals,
                stamp.connection_epoch,
            )
            &&& after.observation.entity_residuals == surviving_residuals(
                runtime.observation.entity_residuals,
                captured,
                stamp.connection_epoch,
            )
            &&& after.observation.generation != runtime.observation.generation
            &&& after.observation.world == runtime.observation.world
            &&& after.observation.armor == runtime.observation.armor
            &&& after.observation.armor_epoch == runtime.observation.armor_epoch
            &&& after.observation.light == runtime.observation.light
            &&& after == (RuntimeView {
                counters: after.counters,
                observation: after.observation,
                ..runtime
            })
        }),
{
}

/// A runtime that is stopping or disconnected publishes no capture.
pub proof fn law_no_capture_after_the_end(
    runtime: RuntimeView,
    stamp: RefreshStamp,
    candidate: Arc<MinecraftSnapshotV1>,
    captured: Seq<Arc<NormalizedEntitySnapshot>>,
    same_state: bool,
    force: bool,
    source: FactSource,
)
    requires
        runtime.flags.stopping || runtime.flags.disconnect_reported,
    ensures
        runtime.refreshed(stamp, candidate, captured, same_state, force, source) == (
            runtime,
            None::<Arc<MinecraftSnapshotV1>>,
        ),
{
}

/// The light of a chunk that was unloaded is forgotten, and no other chunk's.
pub proof fn law_unloaded_chunks_are_forgotten(
    runtime: RuntimeView,
    source: CanonicalSourceAdmission,
    chunk_x: i32,
    chunk_z: i32,
    other_x: i32,
    other_z: i32,
)
    requires
        speaks_now(runtime, source),
        runtime.writer.dimension is Some,
        runtime.observation.light.context matches Some(context) && context.epoch == source.epoch
            && context.scope_generation == source.scope_generation && context.dimension@ == (
        runtime.writer.dimension->0)@,
    ensures
        ({
            let before = runtime.observation.light.chunks;
            let after = runtime.light_chunk_removed(source, chunk_x, chunk_z).observation.light.chunks;
            let other = chunk_key(other_x as int, other_z as int);
            &&& !after.contains_key(chunk_key(chunk_x as int, chunk_z as int))
            &&& (chunk_x, chunk_z) != (other_x, other_z) ==> after.contains_key(other)
                == before.contains_key(other)
            &&& (chunk_x, chunk_z) != (other_x, other_z) ==> before.contains_key(other)
                ==> after[other] == before[other]
        }),
{
}

} // verus!
