//! Reads of what the runtime observes, bound to one connection epoch.

use std::sync::Arc;

use vstd::prelude::*;

use crate::contract::{
    BackendError, BackendFailure, BackendFailureCode, BackendState, Complaint, FactSource,
    FailureMessage, PublicOperation, Readiness, RequestField,
};
use crate::entity_events::{EntityEquipment, NormalizedEntitySnapshot};
use crate::lanes::successor;
use crate::snapshot::{
    block_at, read_block_from_world, BlockPosition, BlockReadResult, PoseSnapshot, StoredBlock,
    TrackedPlayerSnapshot,
};
use crate::state::{next_number, RuntimeCounters, RuntimeView, SharedRuntime};

verus! {

/// How often a viewport is captured before a read gives up.
pub const MAX_VIEWPORT_CAPTURE_ATTEMPTS: u32 = 3;

/// What the published world holds at one position.
#[derive(Debug, PartialEq, Eq)]
pub struct WorldRead {
    pub min_y: i32,
    pub height: u32,
    pub stored: Option<StoredBlock>,
}

/// What a projection of the viewport starts from.
#[derive(Debug, PartialEq, Eq)]
pub struct ViewportInputs {
    pub pose: PoseSnapshot,
    pub entities: Vec<Arc<NormalizedEntitySnapshot>>,
    pub world: u64,
}

/// The published state that a viewport read begins with.
#[derive(Clone, Copy, Debug, PartialEq, Eq, Structural)]
pub struct ViewportTicket {
    pub world: u64,
    pub generation: u64,
}

/// One published state, captured for a projection.
#[derive(Debug, PartialEq, Eq)]
pub struct ViewportCapture {
    pub generation: u64,
    pub world: u64,
    pub pose: PoseSnapshot,
    pub entities: Vec<Arc<NormalizedEntitySnapshot>>,
    pub source: FactSource,
}

/// How a step of a viewport read ended.
#[derive(Debug, PartialEq, Eq)]
pub enum ViewportStep<T> {
    Ready(T),
    /// The published state changed meanwhile: capture again.
    Retry,
}

/// What follows an attempt to read the viewport.
#[derive(Clone, Copy, Debug, PartialEq, Eq, Structural)]
pub enum ViewportLoop {
    Again,
    GiveUp,
}

/// What can go wrong with a directed viewport.
#[derive(Debug, PartialEq, Eq)]
pub enum DirectedViewportError {
    Backend(BackendError),
    /// A ray left the world.
    OutOfWorld,
}

/// The first equipment count that is negative.
pub open spec fn negative_count(equipment: Seq<EntityEquipment>, from: int) -> Option<i64>
    decreases equipment.len() - from,
{
    if from >= equipment.len() {
        None
    } else if equipment[from].count < 0 {
        Some(equipment[from].count)
    } else {
        negative_count(equipment, from + 1)
    }
}

/// The error for an entity that no caller can be given.
pub open spec fn entity_error(entity: NormalizedEntitySnapshot) -> Option<BackendError> {
    match negative_count(entity.equipment@, 0) {
        Some(count) => Some(
            BackendError::BackendFailure {
                failure: BackendFailure {
                    code: BackendFailureCode::ProtocolError,
                    message: FailureMessage::NegativeItemCount(count),
                    retryable: false,
                },
            },
        ),
        None => None,
    }
}

/// The first entity that no caller can be given, as an error.
pub open spec fn entities_error(
    entities: Seq<Arc<NormalizedEntitySnapshot>>,
    from: int,
) -> Option<BackendError>
    decreases entities.len() - from,
{
    if from >= entities.len() {
        None
    } else {
        match entity_error(*entities[from]) {
            Some(error) => Some(error),
            None => entities_error(entities, from + 1),
        }
    }
}

/// Checks that an entity can be given to callers.
pub fn contract_entity_snapshot(entity: &Arc<NormalizedEntitySnapshot>) -> (r: Result<
    (),
    BackendError,
>)
    ensures
        r == (match entity_error(**entity) {
            Some(error) => Err(error),
            None => Ok(()),
        }),
{
    let equipment = &entity.equipment;
    let mut i: usize = 0;
    while i < equipment.len()
        invariant
            i <= equipment@.len(),
            equipment@ == entity.equipment@,
            negative_count(entity.equipment@, i as int) == negative_count(entity.equipment@, 0),
        decreases equipment@.len() - i,
    {
        let count: i64 = equipment[i].count;
        if count < 0 {
            return Err(
                BackendError::BackendFailure {
                    failure: BackendFailure {
                        code: BackendFailureCode::ProtocolError,
                        message: FailureMessage::NegativeItemCount(count),
                        retryable: false,
                    },
                },
            );
        }
        i = i + 1;
    }
    Ok(())
}

fn share_entities(entities: &Vec<Arc<NormalizedEntitySnapshot>>) -> (shared: Vec<
    Arc<NormalizedEntitySnapshot>,
>)
    ensures
        shared@ == entities@,
{
    let mut shared: Vec<Arc<NormalizedEntitySnapshot>> = Vec::new();
    let mut i: usize = 0;
    while i < entities.len()
        invariant
            i <= entities@.len(),
            shared@ == entities@.take(i as int),
        decreases entities@.len() - i,
    {
        shared.push(entities[i].clone());
        i = i + 1;
        assert(entities@.take(i as int) =~= entities@.take(i - 1).push(entities@[i - 1]));
    }
    assert(entities@.take(i as int) =~= entities@);
    shared
}

fn copy_players(players: &Vec<TrackedPlayerSnapshot>) -> (copied: Vec<TrackedPlayerSnapshot>)
    ensures
        copied@ == players@,
{
    let mut copied: Vec<TrackedPlayerSnapshot> = Vec::new();
    let mut i: usize = 0;
    while i < players.len()
        invariant
            i <= players@.len(),
            copied@ == players@.take(i as int),
        decreases players@.len() - i,
    {
        copied.push(players[i].clone());
        i = i + 1;
        assert(players@.take(i as int) =~= players@.take(i - 1).push(players@[i - 1]));
    }
    assert(players@.take(i as int) =~= players@);
    copied
}

fn is_dead(state: &BackendState) -> (r: bool)
    ensures
        r == (state is Dead),
{
    match state {
        BackendState::Dead { .. } => true,
        _ => false,
    }
}

/// What follows an attempt that found another state.
pub open spec fn viewport_follow_up(attempt: u32) -> ViewportLoop {
    if attempt + 1 < MAX_VIEWPORT_CAPTURE_ATTEMPTS {
        ViewportLoop::Again
    } else {
        ViewportLoop::GiveUp
    }
}

/// Whether a read of the viewport is tried again.
pub fn after_viewport_retry(attempt: u32) -> (next: ViewportLoop)
    requires
        attempt < u32::MAX,
    ensures
        next == viewport_follow_up(attempt),
{
    if attempt + 1 < MAX_VIEWPORT_CAPTURE_ATTEMPTS {
        ViewportLoop::Again
    } else {
        ViewportLoop::GiveUp
    }
}

/// The error of a full viewport.
pub open spec fn undirected_error(error: DirectedViewportError) -> BackendError {
    match error {
        DirectedViewportError::Backend(inner) => inner,
        DirectedViewportError::OutOfWorld => BackendError::BackendFailure {
            failure: BackendFailure {
                code: BackendFailureCode::ProtocolError,
                message: FailureMessage::ViewportOutOfWorld,
                retryable: false,
            },
        },
    }
}

/// The error of a full viewport: it aims at nothing, so no ray of it may leave
/// the world.
pub fn backend_error_from_directed(error: DirectedViewportError) -> (r: BackendError)
    ensures
        r == undirected_error(error),
{
    match error {
        DirectedViewportError::Backend(inner) => inner,
        DirectedViewportError::OutOfWorld => BackendError::BackendFailure {
            failure: BackendFailure {
                code: BackendFailureCode::ProtocolError,
                message: FailureMessage::ViewportOutOfWorld,
                retryable: false,
            },
        },
    }
}

/// The error of an operation that was woken up, after a check of its control.
pub open spec fn wakeup_error(
    preflight: Result<(), BackendError>,
    operation: PublicOperation,
) -> BackendError {
    match preflight {
        Err(inner) => inner,
        Ok(()) => BackendError::BackendFailure {
            failure: BackendFailure {
                code: BackendFailureCode::ProtocolError,
                message: FailureMessage::ControlWokeWithoutCause(operation),
                retryable: true,
            },
        },
    }
}

/// The error of an operation whose control woke it up.
pub fn control_wakeup_error(preflight: Result<(), BackendError>, operation: PublicOperation) -> (error:
    BackendError)
    ensures
        error == wakeup_error(preflight, operation),
{
    match preflight {
        Err(inner) => inner,
        Ok(()) => BackendError::BackendFailure {
            failure: BackendFailure {
                code: BackendFailureCode::ProtocolError,
                message: FailureMessage::ControlWokeWithoutCause(operation),
                retryable: true,
            },
        },
    }
}

/// A reader of what the runtime observes. It reads only in the epoch in which
/// it was made.
#[derive(Clone, Copy, Debug, PartialEq, Eq, Structural)]
pub struct RuntimeObservationSource {
    pub bound_epoch: u64,
}

impl RuntimeView {
    /// The reads of another epoch are refused.
    pub open spec fn stale(self, source: RuntimeObservationSource) -> Option<BackendError> {
        if self.epoch() != source.bound_epoch {
            Some(
                BackendError::StaleEpoch {
                    bound_epoch: source.bound_epoch,
                    current_epoch: self.epoch(),
                },
            )
        } else {
            None
        }
    }

    /// There is a player to look from: one in the world, or one who died there.
    pub open spec fn viewpoint_known(self) -> bool {
        self.flags.ready || self.connection.state is Dead
    }

    /// Why a viewport cannot be read, if it cannot.
    pub open spec fn viewport_refusal(self, source: RuntimeObservationSource) -> Option<BackendError> {
        match self.stale(source) {
            Some(error) => Some(error),
            None => if !self.viewpoint_known() {
                Some(BackendError::NotReady { state: Readiness::NotReady })
            } else {
                None
            },
        }
    }

    /// What is missing for a viewport, if anything is.
    pub open spec fn viewport_gap(self) -> Option<Readiness> {
        if self.observation.snapshot is None {
            Some(Readiness::ViewportSnapshotUnavailable)
        } else if self.observation.source is None {
            Some(Readiness::ViewportSourceUnavailable)
        } else if self.observation.world is None {
            Some(Readiness::ViewportWorldUnavailable)
        } else {
            None
        }
    }

    pub open spec fn viewport_begun(self, source: RuntimeObservationSource) -> Result<
        ViewportTicket,
        BackendError,
    > {
        match self.viewport_refusal(source) {
            Some(error) => Err(error),
            None => match self.viewport_gap() {
                Some(state) => Err(BackendError::NotReady { state }),
                None => Ok(
                    ViewportTicket {
                        world: self.observation.world->0,
                        generation: self.observation.generation,
                    },
                ),
            },
        }
    }

    /// The published state is still the one of this generation and world.
    pub open spec fn viewport_unchanged(self, generation: u64, world: u64) -> bool {
        self.observation.generation == generation && self.observation.world == Some(world)
    }

    /// A finished projection may be handed out.
    pub open spec fn viewport_holds(self, capture: ViewportCapture) -> bool {
        self.viewport_unchanged(capture.generation, capture.world) && self.observation.source
            == Some(capture.source)
    }
}

impl RuntimeObservationSource {
    /// The epoch in which the reader was made.
    pub fn epoch(&self) -> (epoch: u64)
        ensures
            epoch == self.bound_epoch,
    {
        self.bound_epoch
    }

    /// Refuses a reader of another epoch.
    pub fn ensure_current_epoch(&self, runtime: &SharedRuntime) -> (r: Result<(), BackendError>)
        ensures
            r == (match runtime@.stale(*self) {
                Some(error) => Err(error),
                None => Ok(()),
            }),
    {
        let current_epoch: u64 = runtime.connection_epoch();
        if current_epoch != self.bound_epoch {
            return Err(
                BackendError::StaleEpoch { bound_epoch: self.bound_epoch, current_epoch },
            );
        }
        Ok(())
    }

    fn self_pose_snapshot(&self, runtime: &SharedRuntime) -> (r: Result<
        Option<PoseSnapshot>,
        BackendError,
    >)
        ensures
            r == (match runtime@.stale(*self) {
                Some(error) => Err(error),
                None => Ok(
                    match runtime@.observation.snapshot {
                        Some(snapshot) => Some(snapshot.spec_pose()),
                        None => None,
                    },
                ),
            }),
    {
        match self.ensure_current_epoch(runtime) {
            Err(error) => Err(error),
            Ok(()) => match &runtime.observation.snapshot {
                Some(snapshot) => Ok(Some(snapshot.pose())),
                None => Ok(None),
            },
        }
    }

    /// Where the player is.
    pub fn self_pose(&self, runtime: &SharedRuntime) -> (r: Result<PoseSnapshot, BackendError>)
        ensures
            r == (match runtime@.stale(*self) {
                Some(error) => Err(error),
                None => match runtime@.observation.snapshot {
                    Some(snapshot) => Ok(snapshot.spec_pose()),
                    None => Err(BackendError::NotReady { state: Readiness::SelfPoseUnavailable }),
                },
            }),
    {
        match self.self_pose_snapshot(runtime) {
            Err(error) => Err(error),
            Ok(Some(pose)) => Ok(pose),
            Ok(None) => Err(BackendError::NotReady { state: Readiness::SelfPoseUnavailable }),
        }
    }

    /// Where the published snapshot comes from.
    pub fn snapshot_source(&self, runtime: &SharedRuntime) -> (r: Result<
        Option<FactSource>,
        BackendError,
    >)
        ensures
            r == (match runtime@.stale(*self) {
                Some(error) => Err(error),
                None => Ok(runtime@.observation.source),
            }),
    {
        match self.ensure_current_epoch(runtime) {
            Err(error) => Err(error),
            Ok(()) => Ok(runtime.observation.source),
        }
    }

    /// The players that the server lists; none before the first snapshot.
    pub fn list_tracked_players(&self, runtime: &SharedRuntime) -> (r: Result<
        Vec<TrackedPlayerSnapshot>,
        BackendError,
    >)
        ensures
            runtime@.stale(*self) matches Some(error) ==> r == Err::<
                Vec<TrackedPlayerSnapshot>,
                BackendError,
            >(error),
            runtime@.stale(*self) is None ==> r is Ok && (r->Ok_0)@ == (
            match runtime@.observation.snapshot {
                Some(snapshot) => snapshot.tracked_players@,
                None => Seq::empty(),
            }),
    {
        match self.ensure_current_epoch(runtime) {
            Err(error) => Err(error),
            Ok(()) => match &runtime.observation.snapshot {
                Some(snapshot) => Ok(copy_players(&snapshot.tracked_players)),
                None => Ok(Vec::new()),
            },
        }
    }

    /// The entities that are published, as they can be given to callers.
    pub fn list_tracked_entities(&self, runtime: &SharedRuntime) -> (r: Result<
        Vec<Arc<NormalizedEntitySnapshot>>,
        BackendError,
    >)
        ensures
            runtime@.stale(*self) matches Some(error) ==> r == Err::<
                Vec<Arc<NormalizedEntitySnapshot>>,
                BackendError,
            >(error),
            runtime@.stale(*self) is None ==> match entities_error(
                runtime@.observation.tracked_entities,
                0,
            ) {
                Some(error) => r == Err::<Vec<Arc<NormalizedEntitySnapshot>>, BackendError>(error),
                None => r is Ok && (r->Ok_0)@ == runtime@.observation.tracked_entities,
            },
    {
        match self.ensure_current_epoch(runtime) {
            Err(error) => Err(error),
            Ok(()) => {
                let entities = &runtime.observation.tracked_entities;
                let mut i: usize = 0;
                while i < entities.len()
                    invariant
                        i <= entities@.len(),
                        entities@ == runtime@.observation.tracked_entities,
                        runtime@.stale(*self) is None,
                        entities_error(entities@, i as int) == entities_error(entities@, 0),
                    decreases entities@.len() - i,
                {
                    match contract_entity_snapshot(&entities[i]) {
                        Err(error) => {
                            return Err(error);
                        },
                        Ok(()) => {},
                    }
                    i = i + 1;
                }
                Ok(share_entities(entities))
            },
        }
    }

    /// What a projection of the viewport starts from; nothing before the first
    /// snapshot or without a world.
    pub fn viewport(&self, runtime: &SharedRuntime) -> (r: Result<
        Option<ViewportInputs>,
        BackendError,
    >)
        ensures
            runtime@.stale(*self) matches Some(error) ==> r == Err::<
                Option<ViewportInputs>,
                BackendError,
            >(error),
            runtime@.stale(*self) is None ==> r is Ok && match (
                runtime@.observation.snapshot,
                runtime@.observation.world,
            ) {
                (Some(snapshot), Some(world)) => r->Ok_0 is Some && (r->Ok_0)->0.pose
                    == snapshot.spec_pose() && (r->Ok_0)->0.world == world && (
                (r->Ok_0)->0).entities@ == runtime@.observation.tracked_entities,
                _ => r->Ok_0 is None,
            },
    {
        match self.self_pose_snapshot(runtime) {
            Err(error) => Err(error),
            Ok(None) => Ok(None),
            Ok(Some(pose)) => match runtime.observation.world {
                None => Ok(None),
                Some(world) => Ok(
                    Some(
                        ViewportInputs {
                            pose,
                            entities: share_entities(&runtime.observation.tracked_entities),
                            world,
                        },
                    ),
                ),
            },
        }
    }

    /// What becomes of a projection that was made outside: its complaint is
    /// about the request, and its result counts only in the same epoch.
    pub fn finish_viewport(
        &self,
        runtime: &SharedRuntime,
        projected: Result<(), String>,
    ) -> (r: Result<(), BackendError>)
        ensures
            r == (match projected {
                Err(message) => Err(
                    BackendError::InvalidCommand {
                        field: RequestField::Viewport,
                        message: Complaint::Text(message),
                    },
                ),
                Ok(()) => match runtime@.stale(*self) {
                    Some(error) => Err(error),
                    None => Ok(()),
                },
            }),
    {
        match projected {
            Err(message) => Err(
                BackendError::InvalidCommand {
                    field: RequestField::Viewport,
                    message: Complaint::Text(message),
                },
            ),
            Ok(()) => self.ensure_current_epoch(runtime),
        }
    }

    /// Reads one block. What the published world holds there is given; without
    /// a published world nothing is loaded.
    pub fn read_block(
        &self,
        runtime: &SharedRuntime,
        position: BlockPosition,
        world: WorldRead,
    ) -> (r: Result<BlockReadResult, BackendError>)
        ensures
            r == (match runtime@.stale(*self) {
                Some(error) => Err(error),
                None => Ok(
                    if runtime@.observation.world is None {
                        BlockReadResult::Unloaded
                    } else {
                        block_at(position, world.min_y, world.height, world.stored)
                    },
                ),
            }),
            r matches Ok(BlockReadResult::Loaded { block }) ==> block.position == position,
    {
        match self.ensure_current_epoch(runtime) {
            Err(error) => Err(error),
            Ok(()) => {
                if runtime.observation.world.is_none() {
                    return Ok(BlockReadResult::Unloaded);
                }
                Ok(read_block_from_world(position, world.min_y, world.height, world.stored))
            },
        }
    }

    fn refuse_viewport(&self, runtime: &SharedRuntime) -> (r: Option<BackendError>)
        ensures
            r == runtime@.viewport_refusal(*self),
    {
        match self.ensure_current_epoch(runtime) {
            Err(error) => Some(error),
            Ok(()) => if !runtime.flags.ready && !is_dead(&runtime.backend_state()) {
                Some(BackendError::NotReady { state: Readiness::NotReady })
            } else {
                None
            },
        }
    }

    /// Begins a coherent read of the viewport.
    pub fn begin_viewport_read(&self, runtime: &SharedRuntime) -> (r: Result<
        ViewportTicket,
        BackendError,
    >)
        ensures
            r == runtime@.viewport_begun(*self),
    {
        if let Some(error) = self.refuse_viewport(runtime) {
            return Err(error);
        }
        if runtime.observation.snapshot.is_none() {
            return Err(BackendError::NotReady { state: Readiness::ViewportSnapshotUnavailable });
        }
        if runtime.observation.source.is_none() {
            return Err(BackendError::NotReady { state: Readiness::ViewportSourceUnavailable });
        }
        match runtime.observation.world {
            Some(world) => Ok(
                ViewportTicket { world, generation: runtime.observation.generation },
            ),
            None => Err(BackendError::NotReady { state: Readiness::ViewportWorldUnavailable }),
        }
    }

    /// Captures the published state for a projection, while the world is held
    /// still. A state that changed since the read began is captured again.
    pub fn capture_viewport(&self, runtime: &SharedRuntime, ticket: ViewportTicket) -> (r: Result<
        ViewportStep<ViewportCapture>,
        BackendError,
    >)
        ensures
            match runtime@.viewport_refusal(*self) {
                Some(error) => r == Err::<ViewportStep<ViewportCapture>, BackendError>(error),
                None => if !runtime@.viewport_unchanged(ticket.generation, ticket.world) {
                    r == Ok::<ViewportStep<ViewportCapture>, BackendError>(ViewportStep::Retry)
                } else {
                    match (runtime@.observation.snapshot, runtime@.observation.source) {
                        (None, _) => r == Err::<ViewportStep<ViewportCapture>, BackendError>(
                            BackendError::NotReady {
                                state: Readiness::ViewportSnapshotUnavailable,
                            },
                        ),
                        (Some(snapshot), source) => if snapshot.connection_epoch
                            != runtime@.epoch() {
                            r == Err::<ViewportStep<ViewportCapture>, BackendError>(
                                BackendError::NotReady {
                                    state: Readiness::ViewportSnapshotEpochMismatch,
                                },
                            )
                        } else {
                            match source {
                                None => r == Err::<ViewportStep<ViewportCapture>, BackendError>(
                                    BackendError::NotReady {
                                        state: Readiness::ViewportSourceUnavailable,
                                    },
                                ),
                                Some(source) => {
                                    &&& r matches Ok(ViewportStep::Ready(capture))
                                    &&& capture.generation == ticket.generation
                                    &&& capture.world == ticket.world
                                    &&& capture.pose == snapshot.spec_pose()
                                    &&& capture.entities@ == runtime@.observation.tracked_entities
                                    &&& capture.source == source
                                },
                            }
                        },
                    }
                },
            },
    {
        if let Some(error) = self.refuse_viewport(runtime) {
            return Err(error);
        }
        let same_world = match runtime.observation.world {
            Some(world) => world == ticket.world,
            None => false,
        };
        if runtime.observation.generation != ticket.generation || !same_world {
            return Ok(ViewportStep::Retry);
        }
        match &runtime.observation.snapshot {
            None => Err(
                BackendError::NotReady { state: Readiness::ViewportSnapshotUnavailable },
            ),
            Some(snapshot) => {
                if snapshot.connection_epoch != runtime.connection_epoch() {
                    return Err(
                        BackendError::NotReady {
                            state: Readiness::ViewportSnapshotEpochMismatch,
                        },
                    );
                }
                match runtime.observation.source {
                    None => Err(
                        BackendError::NotReady { state: Readiness::ViewportSourceUnavailable },
                    ),
                    Some(source) => Ok(
                        ViewportStep::Ready(
                            ViewportCapture {
                                generation: ticket.generation,
                                world: ticket.world,
                                pose: snapshot.pose(),
                                entities: share_entities(&runtime.observation.tracked_entities),
                                source,
                            },
                        ),
                    ),
                }
            },
        }
    }

    /// Finishes a read of the viewport: the projection counts only if the
    /// captured state is still the published one, and gets the next revision.
    pub fn finish_viewport_read(
        &self,
        runtime: &mut SharedRuntime,
        capture: &ViewportCapture,
    ) -> (r: Result<ViewportStep<u64>, BackendError>)
        requires
            old(runtime)@.wf(),
        ensures
            r == (match old(runtime)@.viewport_refusal(*self) {
                Some(error) => Err(error),
                None => if old(runtime)@.viewport_holds(*capture) {
                    Ok(
                        ViewportStep::Ready(
                            successor(old(runtime)@.counters.viewport_revision),
                        ),
                    )
                } else {
                    Ok(ViewportStep::Retry)
                },
            }),
            final(runtime)@ == (if r is Ok && r->Ok_0 is Ready {
                old(runtime)@.with_counters(
                    RuntimeCounters {
                        viewport_revision: successor(old(runtime)@.counters.viewport_revision),
                        ..old(runtime)@.counters
                    },
                )
            } else {
                old(runtime)@
            }),
            final(runtime)@.wf(),
    {
        if let Some(error) = self.refuse_viewport(&*runtime) {
            return Err(error);
        }
        let same_world = match runtime.observation.world {
            Some(world) => world == capture.world,
            None => false,
        };
        let same_source = match runtime.observation.source {
            Some(source) => source == capture.source,
            None => false,
        };
        if runtime.observation.generation != capture.generation || !same_world || !same_source {
            return Ok(ViewportStep::Retry);
        }
        let revision: u64 = next_number(runtime.counters.viewport_revision);
        runtime.put_counters(
            RuntimeCounters { viewport_revision: revision, ..runtime.counters },
        );
        Ok(ViewportStep::Ready(revision))
    }

    /// Registers a listener for the observations of this epoch.
    pub fn subscribe_listener(&self, runtime: &mut SharedRuntime) -> (r: Result<u64, BackendError>)
        requires
            old(runtime)@.wf(),
        ensures
            r == (match old(runtime)@.stale(*self) {
                Some(error) => Err(error),
                None => Ok(successor(old(runtime)@.counters.last_listener)),
            }),
            final(runtime)@ == (if r is Ok {
                old(runtime)@.listening(self.bound_epoch)
            } else {
                old(runtime)@
            }),
            final(runtime)@.wf(),
    {
        match self.ensure_current_epoch(&*runtime) {
            Err(error) => Err(error),
            Ok(()) => Ok(runtime.add_observation_subscription(self.bound_epoch)),
        }
    }
}

/// A viewport that is handed out was projected from the state that is still
/// published, in the reader's own epoch.
pub proof fn law_viewport_is_coherent(
    runtime: RuntimeView,
    source: RuntimeObservationSource,
    capture: ViewportCapture,
)
    requires
        runtime.viewport_refusal(source) is None,
        runtime.viewport_holds(capture),
    ensures
        runtime.epoch() == source.bound_epoch,
        runtime.viewpoint_known(),
        runtime.observation.generation == capture.generation,
        runtime.observation.world == Some(capture.world),
        runtime.observation.source == Some(capture.source),
{
}

/// A viewport is captured up to three times, counted from zero, before a read
/// gives up.
pub proof fn law_a_viewport_is_captured_three_times(attempt: u32)
    ensures
        attempt < 2 ==> viewport_follow_up(attempt) == ViewportLoop::Again,
        attempt >= 2 ==> viewport_follow_up(attempt) == ViewportLoop::GiveUp,
{
}

/// A reader reads in the epoch in which it was made, and is told both epochs in
/// any other.
pub proof fn law_readers_are_of_one_epoch(runtime: RuntimeView, source: RuntimeObservationSource)
    ensures
        runtime.writer.connection_epoch == source.bound_epoch ==> runtime.stale(source) is None,
        runtime.writer.connection_epoch != source.bound_epoch ==> runtime.stale(source) == Some(
            BackendError::StaleEpoch {
                bound_epoch: source.bound_epoch,
                current_epoch: runtime.writer.connection_epoch,
            },
        ),
{
}

/// A viewport can be read by a player in the world, or by one who died there, if a
/// snapshot, its source and a world are published; what is missing first is told.
pub proof fn law_what_a_viewport_needs(runtime: RuntimeView, source: RuntimeObservationSource)
    requires
        runtime.writer.connection_epoch == source.bound_epoch,
    ensures
        ({
            let seen = runtime.observation;
            let somewhere = runtime.flags.ready || runtime.connection.state is Dead;
            let begun = runtime.viewport_begun(source);
            &&& !somewhere ==> begun == Err::<ViewportTicket, BackendError>(
                BackendError::NotReady { state: Readiness::NotReady },
            )
            &&& somewhere && seen.snapshot is None ==> begun == Err::<ViewportTicket, BackendError>(
                BackendError::NotReady { state: Readiness::ViewportSnapshotUnavailable },
            )
            &&& somewhere && seen.snapshot is Some && seen.source is None ==> begun == Err::<
                ViewportTicket,
                BackendError,
            >(BackendError::NotReady { state: Readiness::ViewportSourceUnavailable })
            &&& somewhere && seen.snapshot is Some && seen.source is Some && seen.world is None
                ==> begun == Err::<ViewportTicket, BackendError>(
                BackendError::NotReady { state: Readiness::ViewportWorldUnavailable },
            )
            &&& somewhere && seen.snapshot is Some && seen.source is Some && seen.world is Some
                ==> begun == Ok::<ViewportTicket, BackendError>(
                ViewportTicket { world: seen.world->0, generation: seen.generation },
            )
        }),
{
}

/// A projection counts exactly if the state that it was made from is still the
/// published one: the generation, the world and the source.
pub proof fn law_when_a_projection_counts(runtime: RuntimeView, capture: ViewportCapture)
    ensures
        runtime.viewport_holds(capture) <==> runtime.observation.generation == capture.generation
            && runtime.observation.world == Some(capture.world) && runtime.observation.source
            == Some(capture.source),
        runtime.viewport_unchanged(capture.generation, capture.world) <==> (
        runtime.observation.generation == capture.generation && runtime.observation.world == Some(
            capture.world,
        )),
{
}

/// Of the counts that are negative the first one is told.
pub proof fn law_the_first_negative_count_is_told(
    equipment: Seq<EntityEquipment>,
    from: int,
    at: int,
)
    requires
        0 <= from <= at < equipment.len(),
        equipment[at].count < 0,
        forall|i: int| from <= i < at ==> 0 <= (#[trigger] equipment[i]).count,
    ensures
        negative_count(equipment, from) == Some(equipment[at].count),
    decreases at - from,
{
    if from < at {
        law_the_first_negative_count_is_told(equipment, from + 1, at);
    }
}

/// Equipment without a negative count can be given to callers.
pub proof fn law_proper_counts_are_given(equipment: Seq<EntityEquipment>, from: int)
    requires
        0 <= from,
        forall|i: int| from <= i < equipment.len() ==> 0 <= (#[trigger] equipment[i]).count,
    ensures
        negative_count(equipment, from) is None,
    decreases equipment.len() - from,
{
    if from < equipment.len() {
        law_proper_counts_are_given(equipment, from + 1);
    }
}

/// An entity with a negative count cannot be given to callers, and nothing can be
/// retried for it.
pub proof fn law_which_entities_are_given(entity: NormalizedEntitySnapshot, count: i64)
    ensures
        negative_count(entity.equipment@, 0) is None ==> entity_error(entity) is None,
        negative_count(entity.equipment@, 0) == Some(count) ==> entity_error(entity) == Some(
            BackendError::BackendFailure {
                failure: BackendFailure {
                    code: BackendFailureCode::ProtocolError,
                    message: FailureMessage::NegativeItemCount(count),
                    retryable: false,
                },
            },
        ),
{
}

/// Of the entities that cannot be given to callers the first one is told.
pub proof fn law_the_first_bad_entity_is_told(
    entities: Seq<Arc<NormalizedEntitySnapshot>>,
    from: int,
    at: int,
)
    requires
        0 <= from <= at < entities.len(),
        entity_error(*entities[at]) is Some,
        forall|i: int| from <= i < at ==> entity_error(*#[trigger] entities[i]) is None,
    ensures
        entities_error(entities, from) == entity_error(*entities[at]),
    decreases at - from,
{
    if from < at {
        law_the_first_bad_entity_is_told(entities, from + 1, at);
    }
}

/// Entities that can all be given to callers are.
pub proof fn law_proper_entities_are_given(
    entities: Seq<Arc<NormalizedEntitySnapshot>>,
    from: int,
)
    requires
        0 <= from,
        forall|i: int| from <= i < entities.len() ==> entity_error(*#[trigger] entities[i]) is None,
    ensures
        entities_error(entities, from) is None,
    decreases entities.len() - from,
{
    if from < entities.len() {
        law_proper_entities_are_given(entities, from + 1);
    }
}

/// An error of the run is told as it is. That something lies outside the world
/// cannot happen to a viewport that aims at nothing, so it is a fault, and trying
/// again does not help.
pub proof fn law_full_viewports_stay_in_the_world(error: DirectedViewportError, inner: BackendError)
    ensures
        error == DirectedViewportError::Backend(inner) ==> undirected_error(error) == inner,
        error is OutOfWorld ==> {
            &&& undirected_error(error) matches BackendError::BackendFailure { failure }
            &&& failure.code is ProtocolError
            &&& failure.message is ViewportOutOfWorld
            &&& !failure.retryable
        },
{
}

/// Whoever is woken is told why its control stopped it; a wake that its control
/// does not explain is a fault that is worth another try.
pub proof fn law_wakes_are_explained(
    preflight: Result<(), BackendError>,
    inner: BackendError,
    operation: PublicOperation,
)
    ensures
        preflight == Err::<(), BackendError>(inner) ==> wakeup_error(preflight, operation) == inner,
        preflight is Ok ==> {
            &&& wakeup_error(preflight, operation) matches BackendError::BackendFailure { failure }
            &&& failure.code is ProtocolError
            &&& failure.message == FailureMessage::ControlWokeWithoutCause(operation)
            &&& failure.retryable
        },
{
}

} // verus!
