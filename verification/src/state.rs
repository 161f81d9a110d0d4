//! The state of the runtime, owned by one lock.
//!
//! Every transition of the runtime is a method on `SharedRuntime`. What has to
//! be done outside (waking a task, starting a timer, disconnecting a client) is
//! recorded as an `Effect`, in order, for the owner of the lock to perform.

use std::collections::{HashMap, VecDeque};
use std::sync::Arc;

use vstd::prelude::*;

use crate::command::{BackendCommandEnvelope, CommandCompletionState};
use crate::config::{PhaseDeadlineToken, RunConfig, StableResetToken, StopWatchdogToken};
use crate::contract::{
    AttemptId, BackendClose, BackendEventEnvelope, BackendEventPayload, BackendFailure,
    BackendState, CommandId, EventId, FactSource, StopReason,
};
use crate::dispatch::{
    BrokerView, DispatchView, EventDispatchState, ObservationSubscriptionStatus,
    RuntimeEventQueue,
};
use crate::entity_events::{EntityProducerCache, EntityProducerView};
use crate::lanes::{successor, LanePending, LanesView, MarkerScope};
use crate::time::UtcInstant;
use crate::tracking::{ObservationState, ObservationView};

verus! {

broadcast use vstd::std_specs::hash::group_hash_axioms;

/// How far the current connection attempt has come.
#[allow(inconsistent_fields)]
#[derive(Clone, Copy, Debug, PartialEq, Eq, Structural)]
pub enum AttemptAdmissionState {
    NotStarted,
    Reserved {
        epoch: u64,
        reconnect_token: Option<u64>,
        join_started_epoch: Option<u64>,
        attempt_token: Option<u64>,
    },
    Bound { epoch: u64, entity: u64, reconnect_token: Option<u64>, attempt_token: Option<u64> },
    Closed { epoch: u64 },
}

/// Tells whether a source that carries no token can be attributed to the
/// current attempt. When a reconnect reuses the entity of the attempt before,
/// it cannot.
#[derive(Clone, Copy, Debug, PartialEq, Eq, Structural)]
pub struct SourceFence {
    /// The entity of the last bound attempt.
    pub last_bound: Option<u64>,
    /// The entity whose late events may still arrive.
    pub pending_rebind_entity: Option<u64>,
    /// The current attempt was bound to that very entity.
    pub ambiguous: bool,
}

impl SourceFence {
    pub open spec fn open() -> SourceFence {
        SourceFence { last_bound: None, pending_rebind_entity: None, ambiguous: false }
    }

    pub open spec fn attempted(self) -> SourceFence {
        SourceFence { pending_rebind_entity: self.last_bound, ..self }
    }

    /// A new attempt begins: the last bound entity may still speak for the old one.
    pub fn begin_attempt(&mut self)
        ensures
            *final(self) == old(self).attempted(),
    {
        self.pending_rebind_entity = self.last_bound;
    }

    pub open spec fn bound(self, entity: u64) -> SourceFence {
        SourceFence {
            last_bound: Some(entity),
            pending_rebind_entity: None,
            ambiguous: self.pending_rebind_entity == Some(entity),
        }
    }

    /// The attempt is bound to an entity.
    pub fn bind(&mut self, entity: u64)
        ensures
            *final(self) == old(self).bound(entity),
    {
        self.ambiguous = match self.pending_rebind_entity {
            Some(pending) => pending == entity,
            None => false,
        };
        self.pending_rebind_entity = None;
        self.last_bound = Some(entity);
    }

    pub open spec fn allows(self, entity: u64) -> bool {
        !self.ambiguous && self.pending_rebind_entity != Some(entity)
    }

    /// Tells whether a source of this entity without a token is the current attempt's.
    pub fn allows_unstamped(&self, entity: u64) -> (r: bool)
        ensures
            r == self.allows(entity),
    {
        !self.ambiguous && match self.pending_rebind_entity {
            Some(pending) => pending != entity,
            None => true,
        }
    }

    pub open spec fn allows_global(self) -> bool {
        !self.ambiguous && self.pending_rebind_entity is None
    }

    /// Tells whether a source without entity and token is the current attempt's.
    pub fn allows_unstamped_global(&self) -> (r: bool)
        ensures
            r == self.allows_global(),
    {
        !self.ambiguous && self.pending_rebind_entity.is_none()
    }
}

/// An attempt that reuses the entity of the one before admits no source without
/// a token, neither before nor after it is bound.
pub proof fn law_reused_entity_closes_the_fence(fence: SourceFence, entity: u64)
    ensures
        !fence.bound(entity).attempted().allows(entity),
        !fence.bound(entity).attempted().allows_global(),
        !fence.bound(entity).attempted().bound(entity).allows(entity),
        !fence.bound(entity).attempted().bound(entity).allows_global(),
{
}

/// An attempt with a new entity is told apart from the one before.
pub proof fn law_new_entity_opens_the_fence(fence: SourceFence, entity: u64, next: u64)
    requires
        next != entity,
    ensures
        fence.bound(entity).attempted().bound(next).allows(next),
        fence.bound(entity).attempted().bound(next).allows_global(),
{
}

/// Which attempt token belongs to which epoch, as a value.
pub type Bindings = Seq<(u64, u64)>;

/// No token and no epoch is bound twice.
pub open spec fn one_to_one(bindings: Bindings) -> bool {
    forall|i: int, j: int|
        0 <= i < bindings.len() && 0 <= j < bindings.len() && i != j ==> (
        #[trigger] bindings[i]).0 != (#[trigger] bindings[j]).0 && bindings[i].1 != bindings[j].1
}

/// Neither the token nor the epoch is bound.
pub open spec fn unbound(bindings: Bindings, token: u64, epoch: u64) -> bool {
    forall|i: int|
        0 <= i < bindings.len() ==> (#[trigger] bindings[i]).0 != token && bindings[i].1 != epoch
}

/// The pair can be bound: it is bound already, or both sides are free.
pub open spec fn bindable(bindings: Bindings, token: u64, epoch: u64) -> bool {
    bindings.contains((token, epoch)) || unbound(bindings, token, epoch)
}

/// The bindings once the pair is bound.
pub open spec fn bound_pairs(bindings: Bindings, token: u64, epoch: u64) -> Bindings {
    if bindings.contains((token, epoch)) {
        bindings
    } else {
        bindings.push((token, epoch))
    }
}

/// Which attempt token belongs to which epoch.
pub struct SourceTokenBindings {
    pub pairs: Vec<(u64, u64)>,
}

impl SourceTokenBindings {
    pub fn new() -> (bindings: Self)
        ensures
            bindings.pairs@ == Seq::<(u64, u64)>::empty(),
    {
        SourceTokenBindings { pairs: Vec::new() }
    }

    /// Tells whether the token is bound to exactly this epoch.
    pub fn matches(&self, token: u64, epoch: u64) -> (r: bool)
        ensures
            r == self.pairs@.contains((token, epoch)),
    {
        let mut i: usize = 0;
        while i < self.pairs.len()
            invariant
                i <= self.pairs@.len(),
                forall|k: int| 0 <= k < i ==> self.pairs@[k] != (token, epoch),
            decreases self.pairs@.len() - i,
        {
            let pair = self.pairs[i];
            if pair.0 == token && pair.1 == epoch {
                assert(self.pairs@[i as int] == (token, epoch));
                return true;
            }
            i = i + 1;
        }
        false
    }

    /// Binds a token to an epoch. Binding is exact: a pair may be bound again,
    /// but neither side may change partners.
    pub fn bind(&mut self, token: u64, epoch: u64) -> (bound: bool)
        requires
            one_to_one(old(self).pairs@),
        ensures
            bound == bindable(old(self).pairs@, token, epoch),
            final(self).pairs@ == (if bound {
                bound_pairs(old(self).pairs@, token, epoch)
            } else {
                old(self).pairs@
            }),
            one_to_one(final(self).pairs@),
    {
        if self.matches(token, epoch) {
            return true;
        }
        let mut i: usize = 0;
        while i < self.pairs.len()
            invariant
                self.pairs@ == old(self).pairs@,
                !self.pairs@.contains((token, epoch)),
                i <= self.pairs@.len(),
                one_to_one(self.pairs@),
                forall|k: int|
                    0 <= k < i ==> (#[trigger] self.pairs@[k]).0 != token && self.pairs@[k].1
                        != epoch,
            decreases self.pairs@.len() - i,
        {
            let pair = self.pairs[i];
            if pair.0 == token || pair.1 == epoch {
                assert(self.pairs@[i as int] == pair);
                return false;
            }
            i = i + 1;
        }
        self.pairs.push((token, epoch));
        true
    }
}

/// Once bound, a token stays with its epoch: no other pair with it is bindable.
pub proof fn law_token_never_changes_its_epoch(
    bindings: Bindings,
    token: u64,
    epoch: u64,
    other_token: u64,
    other_epoch: u64,
)
    requires
        one_to_one(bindings),
        bindings.contains((token, epoch)),
        token == other_token || epoch == other_epoch,
        (token, epoch) != (other_token, other_epoch),
    ensures
        !bindable(bindings, other_token, other_epoch),
{
    let i = choose|i: int| 0 <= i < bindings.len() && bindings[i] == (token, epoch);
    if bindings.contains((other_token, other_epoch)) {
        let j = choose|j: int|
            0 <= j < bindings.len() && bindings[j] == (other_token, other_epoch);
        assert(i != j);
    }
}

/// The source of a packet, stamped when the packet was read.
#[derive(Clone, Copy, Debug, PartialEq, Eq, Structural)]
pub struct CanonicalSourceAdmission {
    pub entity: u64,
    pub epoch: u64,
    pub scope_generation: u64,
    pub attempt_token: Option<u64>,
}

/// A client: its entity and, where the transport stamps one, its attempt token.
#[derive(Clone, Copy, Debug, PartialEq, Eq, Structural)]
pub struct ClientRef {
    pub entity: u64,
    pub attempt_token: Option<u64>,
}

/// A connection attempt whose client does not exist yet.
#[derive(Clone, Copy, Debug, PartialEq, Eq, Structural)]
pub struct PendingConnectionAttempt {
    pub entity: u64,
    pub attempt_token: u64,
    pub epoch: u64,
    pub ordinal: u64,
}

/// The owner of the entity stream and its scope, as a value.
#[verifier::ext_equal]
pub ghost struct ProducerView {
    pub owner: Option<(u64, u64)>,
    pub source_fence: SourceFence,
    pub bindings: Bindings,
    pub attempt: AttemptAdmissionState,
    pub pending_connection_failure: Option<(u64, u64)>,
    pub cache: EntityProducerView,
    pub scope_generation: u64,
}

impl ProducerView {
    pub open spec fn initial() -> ProducerView {
        ProducerView {
            owner: None,
            source_fence: SourceFence::open(),
            bindings: Seq::empty(),
            attempt: AttemptAdmissionState::NotStarted,
            pending_connection_failure: None,
            cache: EntityProducerView::closed(),
            scope_generation: 0,
        }
    }

    pub open spec fn scope_opened(self, epoch: u64) -> ProducerView {
        ProducerView {
            cache: EntityProducerView::opened(epoch),
            scope_generation: successor(self.scope_generation),
            ..self
        }
    }

    pub open spec fn scope_closed(self) -> ProducerView {
        ProducerView {
            cache: EntityProducerView::closed(),
            scope_generation: successor(self.scope_generation),
            ..self
        }
    }

    /// A source is the current owner's: a token has to be bound to the epoch, a
    /// source without one has to pass the fence.
    pub open spec fn source_admitted(self, entity: u64, epoch: u64, token: Option<u64>) -> bool {
        match token {
            Some(token) => self.bindings.contains((token, epoch)),
            None => self.source_fence.allows(entity),
        }
    }

    /// What every reachable producer state satisfies.
    #[verifier::opaque]
    pub open spec fn wf(self) -> bool {
        &&& self.cache.wf()
        &&& one_to_one(self.bindings)
        &&& self.cache.epoch == (match self.owner {
            Some((_, epoch)) => Some(epoch),
            None => None,
        })
        &&& (self.owner matches Some((entity, epoch)) ==> {
            &&& self.attempt matches AttemptAdmissionState::Bound { epoch: e, entity: n, .. }
            &&& e == epoch
            &&& n == entity
        })
    }
}

/// The owner of the entity stream and its scope.
pub struct EntityProducerState {
    pub owner: Option<(u64, u64)>,
    pub source_fence: SourceFence,
    pub source_token_bindings: SourceTokenBindings,
    pub attempt: AttemptAdmissionState,
    pub pending_connection_failure: Option<(u64, u64)>,
    pub cache: EntityProducerCache,
    pub scope_generation: u64,
}

impl View for EntityProducerState {
    type V = ProducerView;

    open spec fn view(&self) -> ProducerView {
        ProducerView {
            owner: self.owner,
            source_fence: self.source_fence,
            bindings: self.source_token_bindings.pairs@,
            attempt: self.attempt,
            pending_connection_failure: self.pending_connection_failure,
            cache: self.cache@,
            scope_generation: self.scope_generation,
        }
    }
}

/// The next number of a counter that starts over after the largest one.
pub fn next_number(n: u64) -> (r: u64)
    ensures
        r == successor(n),
{
    if n == u64::MAX {
        0
    } else {
        n + 1
    }
}

impl EntityProducerState {
    pub fn new() -> (state: Self)
        ensures
            state@ == ProducerView::initial(),
            state@.wf(),
    {
        reveal(ProducerView::wf);
        EntityProducerState {
            owner: None,
            source_fence: SourceFence {
                last_bound: None,
                pending_rebind_entity: None,
                ambiguous: false,
            },
            source_token_bindings: SourceTokenBindings::new(),
            attempt: AttemptAdmissionState::NotStarted,
            pending_connection_failure: None,
            cache: EntityProducerCache::new(),
            scope_generation: 0,
        }
    }

    /// Opens a new scope of the entity stream.
    pub fn reset_scope(&mut self, epoch: u64)
        ensures
            final(self)@ == old(self)@.scope_opened(epoch),
    {
        self.cache.reset_scope(epoch);
        self.scope_generation = next_number(self.scope_generation);
    }

    /// Closes the scope of the entity stream.
    pub fn deactivate_scope(&mut self)
        ensures
            final(self)@ == old(self)@.scope_closed(),
    {
        self.cache.deactivate_scope();
        self.scope_generation = next_number(self.scope_generation);
    }

    /// Tells whether this entity owns the stream in this epoch.
    pub fn is_owner(&self, entity: u64, epoch: u64) -> (r: bool)
        ensures
            r == (self@.owner == Some((entity, epoch))),
    {
        match self.owner {
            Some(owner) => owner.0 == entity && owner.1 == epoch,
            None => false,
        }
    }

    /// Tells whether a source is the current owner's.
    pub fn admits_source(&self, entity: u64, epoch: u64, token: Option<u64>) -> (r: bool)
        ensures
            r == self@.source_admitted(entity, epoch, token),
    {
        match token {
            Some(token) => self.source_token_bindings.matches(token, epoch),
            None => self.source_fence.allows_unstamped(entity),
        }
    }
}

/// The metadata that every event is stamped with.
pub struct EventWriter {
    pub process_session_id: String,
    pub connection_epoch: u64,
    pub connection_attempt_id: AttemptId,
    pub world_id: String,
    pub dimension: Option<String>,
    pub next_event: u64,
}

impl EventWriter {
    /// The event that the writer makes next.
    pub open spec fn event(
        self,
        source: FactSource,
        payload: BackendEventPayload,
        occurred_at: UtcInstant,
    ) -> BackendEventEnvelope {
        BackendEventEnvelope {
            id: EventId::Event(self.next_event),
            occurred_at,
            process_session_id: self.process_session_id,
            connection_epoch: self.connection_epoch,
            connection_attempt_id: self.connection_attempt_id,
            world_id: self.world_id,
            dimension: self.dimension,
            source,
            payload,
        }
    }

    pub open spec fn advanced(self) -> EventWriter {
        EventWriter { next_event: successor(self.next_event), ..self }
    }

    pub open spec fn attempted(self, epoch: u64) -> EventWriter {
        EventWriter {
            connection_epoch: epoch,
            connection_attempt_id: AttemptId { epoch },
            dimension: None,
            ..self
        }
    }

    /// Starts a new attempt; its dimension is not known yet.
    pub fn new_attempt(&mut self, epoch: u64)
        ensures
            *final(self) == old(self).attempted(epoch),
    {
        self.connection_epoch = epoch;
        self.connection_attempt_id = AttemptId { epoch };
        self.dimension = None;
    }

    /// Makes an event out of what happened.
    pub fn emit_at(
        &mut self,
        source: FactSource,
        payload: BackendEventPayload,
        occurred_at: UtcInstant,
    ) -> (event: BackendEventEnvelope)
        ensures
            event == old(self).event(source, payload, occurred_at),
            *final(self) == old(self).advanced(),
    {
        let event = BackendEventEnvelope {
            id: EventId::Event(self.next_event),
            occurred_at,
            process_session_id: self.process_session_id.clone(),
            connection_epoch: self.connection_epoch,
            connection_attempt_id: self.connection_attempt_id,
            world_id: self.world_id.clone(),
            dimension: self.dimension.clone(),
            source,
            payload,
        };
        self.next_event = next_number(self.next_event);
        event
    }
}

/// The yes-or-no facts of the runtime's life.
#[derive(Clone, Copy, Debug, PartialEq, Eq, Structural)]
pub struct RuntimeFlags {
    pub ready: bool,
    pub stopping: bool,
    pub stop_requested: bool,
    pub stopped_reported: bool,
    pub disconnect_reported: bool,
    pub faulted_reported: bool,
    pub death_reported: bool,
    pub shutdown_requested: bool,
    pub dispatch_cancelled: bool,
    pub reconnect_pending: bool,
    pub reconnect_add_pending: bool,
    pub timers_enabled: bool,
    pub initial_chat_sent: bool,
    pub timer_started: bool,
}

impl RuntimeFlags {
    pub open spec fn initial() -> RuntimeFlags {
        RuntimeFlags {
            ready: false,
            stopping: false,
            stop_requested: false,
            stopped_reported: false,
            disconnect_reported: false,
            faulted_reported: false,
            death_reported: false,
            shutdown_requested: false,
            dispatch_cancelled: false,
            reconnect_pending: false,
            reconnect_add_pending: false,
            timers_enabled: false,
            initial_chat_sent: false,
            timer_started: false,
        }
    }
}

/// The counters of the runtime.
#[derive(Clone, Copy, Debug, PartialEq, Eq, Structural)]
pub struct RuntimeCounters {
    pub phase_generation: u64,
    pub stable_generation: u64,
    pub stop_watchdog_generation: u64,
    pub reconnect_attempt_token: u64,
    pub retry_ordinal: u64,
    pub lifecycle_revision: u64,
    pub snapshot_revision: u64,
    pub viewport_revision: u64,
    pub command_revision: u64,
    pub tick_revision: u64,
    pub entity_packet_admission: u64,
    pub movement_generation: u64,
    pub reconnect_rng: u64,
    pub last_subscriber: u64,
    pub last_listener: u64,
    pub last_completion: u64,
    pub last_signal: u64,
}

impl RuntimeCounters {
    pub open spec fn initial(seed: u64) -> RuntimeCounters {
        RuntimeCounters {
            phase_generation: 0,
            stable_generation: 0,
            stop_watchdog_generation: 0,
            reconnect_attempt_token: 0,
            retry_ordinal: 0,
            lifecycle_revision: 0,
            snapshot_revision: 0,
            viewport_revision: 0,
            command_revision: 0,
            tick_revision: 0,
            entity_packet_admission: 0,
            movement_generation: 0,
            reconnect_rng: seed,
            last_subscriber: 0,
            last_listener: 0,
            last_completion: 0,
            last_signal: 0,
        }
    }
}

/// The movement that is being carried out, if any.
#[derive(Debug, PartialEq, Eq)]
pub struct MovementState {
    pub active: bool,
    pub id: Option<CommandId>,
    pub completion: Option<u64>,
    pub cancel_signal: Option<u64>,
    /// A movement is between its admission and its first action.
    pub registration: bool,
}

impl MovementState {
    pub open spec fn idle() -> MovementState {
        MovementState {
            active: false,
            id: None,
            completion: None,
            cancel_signal: None,
            registration: false,
        }
    }
}

impl Clone for MovementState {
    fn clone(&self) -> (r: Self)
        ensures
            r == *self,
    {
        MovementState {
            active: self.active,
            id: self.id.clone(),
            completion: self.completion,
            cancel_signal: self.cancel_signal,
            registration: self.registration,
        }
    }
}

/// The connection as its owner sees it.
#[derive(Debug, PartialEq, Eq)]
pub struct ConnectionState {
    pub state: BackendState,
    pub last_close: Option<BackendClose>,
    pub last_failure: Option<BackendFailure>,
    pub stop_reason: Option<StopReason>,
    pub reported_dimension: Option<String>,
    pub pending_connection: Option<PendingConnectionAttempt>,
    pub active_client: Option<ClientRef>,
    pub swarm: Option<u64>,
}

impl ConnectionState {
    pub open spec fn initial() -> ConnectionState {
        ConnectionState {
            state: BackendState::Idle,
            last_close: None,
            last_failure: None,
            stop_reason: None,
            reported_dimension: None,
            pending_connection: None,
            active_client: None,
            swarm: None,
        }
    }
}

/// A command in the queue.
#[derive(Debug, PartialEq, Eq)]
pub struct QueuedCommand {
    /// The epoch in which the command was taken. Epochs never repeat, so a
    /// reconnect cannot hand a command of one connection to the next.
    pub connection_epoch: u64,
    pub envelope: BackendCommandEnvelope,
    pub completion: Option<u64>,
}

/// One subscriber of the event stream.
pub struct RuntimeSubscriber {
    pub id: u64,
    pub queue: RuntimeEventQueue,
}

/// One subscriber of the event stream, as a value.
#[verifier::ext_equal]
pub ghost struct SubscriberView {
    pub id: u64,
    pub queue: BrokerView,
}

impl View for RuntimeSubscriber {
    type V = SubscriberView;

    open spec fn view(&self) -> SubscriberView {
        SubscriberView { id: self.id, queue: self.queue@ }
    }
}

/// One listener for the observations of one epoch.
#[derive(Clone, Copy, Debug, PartialEq, Eq, Structural)]
pub struct ObservationSubscriber {
    pub id: u64,
    pub epoch: u64,
    pub status: ObservationSubscriptionStatus,
}

/// What the owner of the runtime has to do once it has released the lock.
#[allow(inconsistent_fields)]
#[derive(Debug, PartialEq, Eq)]
pub enum Effect {
    /// Writes an event to standard output.
    WriteLine(Arc<BackendEventEnvelope>),
    /// Calls an observation listener.
    Deliver { subscription: u64, event: Arc<BackendEventEnvelope> },
    /// Wakes everyone who waits for room in the event queues.
    WakeDispatch,
    /// Cancels the running phase deadlines.
    CancelPhaseDeadlines,
    /// Cancels the running resets of the retry count.
    CancelStableResets,
    /// Cancels the running wait for a reconnect.
    CancelReconnect,
    /// Cancels the stop watchdog.
    CancelStopWatchdog,
    StartPhaseDeadline { token: PhaseDeadlineToken, after_ms: u64 },
    StartStableReset { token: StableResetToken, after_ms: u64 },
    StartStopWatchdog { token: StopWatchdogToken, after_ms: u64 },
    /// Raises the signal of a movement.
    RaiseSignal(u64),
    /// Tells whoever waits for a command that it is settled.
    Settled(u64),
    DisconnectClient(ClientRef),
    ExitSwarm(u64),
    /// Lets the run end.
    Shutdown,
}

/// The runtime's state as a value.
pub ghost struct RuntimeView {
    pub config: RunConfig,
    pub flags: RuntimeFlags,
    pub counters: RuntimeCounters,
    pub movement: MovementState,
    pub connection: ConnectionState,
    pub writer: EventWriter,
    pub producer: ProducerView,
    pub observation: ObservationView,
    pub dispatch: DispatchView,
    /// Events that wait for room in the dispatch queue, in order.
    pub stalled: Seq<LanePending>,
    pub subscribers: Seq<SubscriberView>,
    pub listeners: Seq<ObservationSubscriber>,
    pub commands: Seq<QueuedCommand>,
    pub completions: Map<u64, CommandCompletionState>,
    pub effects: Seq<Effect>,
}

/// The runtime's state.
pub struct SharedRuntime {
    pub config: RunConfig,
    pub flags: RuntimeFlags,
    pub counters: RuntimeCounters,
    pub movement: MovementState,
    pub connection: ConnectionState,
    pub writer: EventWriter,
    pub producer: EntityProducerState,
    pub observation: ObservationState,
    pub dispatch: EventDispatchState,
    pub stalled: Vec<LanePending>,
    pub subscribers: Vec<RuntimeSubscriber>,
    pub listeners: Vec<ObservationSubscriber>,
    pub commands: VecDeque<QueuedCommand>,
    pub completions: HashMap<u64, CommandCompletionState>,
    pub effects: Vec<Effect>,
}

/// The subscribers as values.
pub open spec fn subscriber_views(subscribers: Seq<RuntimeSubscriber>) -> Seq<SubscriberView> {
    Seq::new(subscribers.len(), |i: int| subscribers[i]@)
}

impl View for SharedRuntime {
    type V = RuntimeView;

    open spec fn view(&self) -> RuntimeView {
        RuntimeView {
            config: self.config,
            flags: self.flags,
            counters: self.counters,
            movement: self.movement,
            connection: self.connection,
            writer: self.writer,
            producer: self.producer@,
            observation: self.observation@,
            dispatch: self.dispatch@,
            stalled: self.stalled@,
            subscribers: subscriber_views(self.subscribers@),
            listeners: self.listeners@,
            commands: self.commands@,
            completions: self.completions@,
            effects: self.effects@,
        }
    }
}

/// No subscriber's lanes are over their capacity.
#[verifier::opaque]
pub open spec fn all_bounded(subscribers: Seq<SubscriberView>) -> bool {
    forall|i: int|
        0 <= i < subscribers.len() ==> (#[trigger] subscribers[i]).queue.lanes.bounded()
}

/// No token is bound to an epoch behind this one.
#[verifier::opaque]
pub open spec fn bound_up_to(bindings: Bindings, epoch: u64) -> bool {
    forall|i: int| 0 <= i < bindings.len() ==> (#[trigger] bindings[i]).1 <= epoch
}

/// The attempt belongs to the epoch.
pub open spec fn attempt_of_epoch(attempt: AttemptAdmissionState, epoch: u64) -> bool {
    match attempt {
        AttemptAdmissionState::NotStarted => true,
        AttemptAdmissionState::Reserved { epoch: e, join_started_epoch, .. } => e == epoch && (
        join_started_epoch is None || join_started_epoch == Some(epoch)),
        AttemptAdmissionState::Bound { epoch: e, .. } => e == epoch,
        AttemptAdmissionState::Closed { epoch: e } => e <= epoch,
    }
}

impl RuntimeView {
    /// What every reachable state of the runtime satisfies: queues and residuals
    /// are bounded, the owner and the attempt belong to the current epoch, and
    /// no token is bound to an epoch that has not begun.
    pub open spec fn wf(self) -> bool {
        &&& self.producer.wf()
        &&& self.dispatch.lanes.bounded()
        &&& all_bounded(self.subscribers)
        &&& self.observation.bounded()
        &&& (self.producer.owner matches Some((_, epoch)) ==> epoch
            == self.writer.connection_epoch)
        &&& attempt_of_epoch(self.producer.attempt, self.writer.connection_epoch)
        &&& bound_up_to(self.producer.bindings, self.writer.connection_epoch)
        &&& (self.flags.stopping ==> self.flags.stop_requested)
    }

    /// A fresh runtime: idle, nothing connected, nothing published.
    pub open spec fn initial(config: RunConfig, process_session_id: String, seed: u64) -> RuntimeView {
        RuntimeView {
            config,
            flags: RuntimeFlags::initial(),
            counters: RuntimeCounters::initial(seed),
            movement: MovementState::idle(),
            connection: ConnectionState::initial(),
            writer: EventWriter {
                process_session_id,
                connection_epoch: 0,
                connection_attempt_id: AttemptId { epoch: 0 },
                world_id: config.world_id,
                dimension: None,
                next_event: 1,
            },
            producer: ProducerView::initial(),
            observation: ObservationView::empty(),
            dispatch: DispatchView {
                lanes: LanesView::empty(MarkerScope::Dispatch),
                drainer_active: false,
            },
            stalled: Seq::empty(),
            subscribers: Seq::empty(),
            listeners: Seq::empty(),
            commands: Seq::empty(),
            completions: Map::empty(),
            effects: Seq::empty(),
        }
    }

    pub open spec fn with_effect(self, effect: Effect) -> RuntimeView {
        RuntimeView { effects: self.effects.push(effect), ..self }
    }

    pub open spec fn epoch(self) -> u64 {
        self.writer.connection_epoch
    }

    /// Nothing is observed any more.
    pub open spec fn observations_cleared(self) -> RuntimeView {
        RuntimeView {
            connection: ConnectionState { reported_dimension: None, ..self.connection },
            observation: self.observation.cleared(),
            ..self
        }
    }

    /// Commands and ordinary events are taken: no stop and no disconnect yet.
    pub open spec fn running(self) -> bool {
        !self.flags.stopping && !self.flags.disconnect_reported
    }

    pub open spec fn with_flags(self, flags: RuntimeFlags) -> RuntimeView {
        RuntimeView { flags, ..self }
    }

    pub open spec fn with_counters(self, counters: RuntimeCounters) -> RuntimeView {
        RuntimeView { counters, ..self }
    }

    pub open spec fn with_movement(self, movement: MovementState) -> RuntimeView {
        RuntimeView { movement, ..self }
    }

    pub open spec fn with_state(self, state: BackendState) -> RuntimeView {
        RuntimeView { connection: ConnectionState { state, ..self.connection }, ..self }
    }

    /// The client is the current owner's.
    pub open spec fn owned_by(self, client: ClientRef) -> bool {
        self.producer.owner == Some((client.entity, self.epoch()))
            && self.producer.source_admitted(client.entity, self.epoch(), client.attempt_token)
    }
}

impl SharedRuntime {
    /// A fresh runtime. The process session id and the jitter seed come from outside.
    pub fn new(config: RunConfig, process_session_id: String, seed: u64) -> (runtime: Self)
        ensures
            runtime@ == RuntimeView::initial(config, process_session_id, seed),
            runtime@.wf(),
    {
        let world_id = config.world_id.clone();
        let runtime = SharedRuntime {
            config,
            flags: RuntimeFlags {
                ready: false,
                stopping: false,
                stop_requested: false,
                stopped_reported: false,
                disconnect_reported: false,
                faulted_reported: false,
                death_reported: false,
                shutdown_requested: false,
                dispatch_cancelled: false,
                reconnect_pending: false,
                reconnect_add_pending: false,
                timers_enabled: false,
                initial_chat_sent: false,
                timer_started: false,
            },
            counters: RuntimeCounters {
                phase_generation: 0,
                stable_generation: 0,
                stop_watchdog_generation: 0,
                reconnect_attempt_token: 0,
                retry_ordinal: 0,
                lifecycle_revision: 0,
                snapshot_revision: 0,
                viewport_revision: 0,
                command_revision: 0,
                tick_revision: 0,
                entity_packet_admission: 0,
                movement_generation: 0,
                reconnect_rng: seed,
                last_subscriber: 0,
                last_listener: 0,
                last_completion: 0,
                last_signal: 0,
            },
            movement: MovementState {
                active: false,
                id: None,
                completion: None,
                cancel_signal: None,
                registration: false,
            },
            connection: ConnectionState {
                state: BackendState::Idle,
                last_close: None,
                last_failure: None,
                stop_reason: None,
                reported_dimension: None,
                pending_connection: None,
                active_client: None,
                swarm: None,
            },
            writer: EventWriter {
                process_session_id,
                connection_epoch: 0,
                connection_attempt_id: AttemptId { epoch: 0 },
                world_id,
                dimension: None,
                next_event: 1,
            },
            producer: EntityProducerState::new(),
            observation: ObservationState::new(),
            dispatch: EventDispatchState::new(),
            stalled: Vec::new(),
            subscribers: Vec::new(),
            listeners: Vec::new(),
            commands: VecDeque::new(),
            completions: HashMap::new(),
            effects: Vec::new(),
        };
        proof {
            reveal(all_bounded);
            reveal(bound_up_to);
            assert(runtime@.subscribers =~= Seq::<SubscriberView>::empty());
            assert(runtime@.completions =~= Map::<u64, CommandCompletionState>::empty());
        }
        runtime
    }

    /// Hands out the recorded effects, in order, and forgets them.
    pub fn take_effects(&mut self) -> (effects: Vec<Effect>)
        ensures
            effects@ == old(self)@.effects,
            final(self)@ == (RuntimeView { effects: Seq::empty(), ..old(self)@ }),
    {
        let mut effects: Vec<Effect> = Vec::new();
        core::mem::swap(&mut effects, &mut self.effects);
        effects
    }

    /// Replaces the flags.
    pub fn put_flags(&mut self, flags: RuntimeFlags)
        requires
            old(self)@.wf(),
            flags.stopping ==> flags.stop_requested,
        ensures
            final(self)@ == old(self)@.with_flags(flags),
            final(self)@.wf(),
    {
        self.flags = flags;
    }

    /// Replaces the counters.
    pub fn put_counters(&mut self, counters: RuntimeCounters)
        requires
            old(self)@.wf(),
        ensures
            final(self)@ == old(self)@.with_counters(counters),
            final(self)@.wf(),
    {
        self.counters = counters;
    }

    /// Replaces the movement that is being carried out.
    pub fn put_movement(&mut self, movement: MovementState)
        requires
            old(self)@.wf(),
        ensures
            final(self)@ == old(self)@.with_movement(movement),
            final(self)@.wf(),
    {
        self.movement = movement;
    }

    /// Replaces the state that the runtime shows.
    pub fn set_backend_state(&mut self, state: BackendState)
        requires
            old(self)@.wf(),
        ensures
            final(self)@ == old(self)@.with_state(state),
            final(self)@.wf(),
    {
        self.connection.state = state;
    }

    /// Withdraws every observation.
    pub fn clear_observations(&mut self)
        requires
            old(self)@.wf(),
        ensures
            final(self)@ == old(self)@.observations_cleared(),
            final(self)@.wf(),
    {
        self.connection.reported_dimension = None;
        self.observation.clear();
    }

    pub fn connection_epoch(&self) -> (epoch: u64)
        ensures
            epoch == self@.epoch(),
    {
        self.writer.connection_epoch
    }

    pub fn backend_state(&self) -> (state: BackendState)
        ensures
            state == self@.connection.state,
    {
        self.connection.state.clone()
    }

    /// Tells whether commands and ordinary events are taken.
    pub fn command_execution_allowed(&self) -> (r: bool)
        ensures
            r == self@.running(),
    {
        !self.flags.stopping && !self.flags.disconnect_reported
    }

    /// Tells whether a client is the current owner's.
    pub fn client_is_current_owner(&self, client: ClientRef) -> (r: bool)
        ensures
            r == self@.owned_by(client),
    {
        let epoch: u64 = self.writer.connection_epoch;
        self.producer.is_owner(client.entity, epoch) && self.producer.admits_source(
            client.entity,
            epoch,
            client.attempt_token,
        )
    }
}

/// Before its own entity is known, an attempt is told apart from the one before
/// by the entity: that of the attempt before is not trusted, any other is. The
/// first attempt trusts every entity.
pub proof fn law_an_attempt_distrusts_only_the_entity_before(
    fence: SourceFence,
    entity: u64,
    other: u64,
)
    requires
        fence.last_bound == Some(entity),
        !fence.ambiguous,
    ensures
        !fence.attempted().allows(entity),
        other != entity ==> fence.attempted().allows(other),
        !fence.attempted().allows_global(),
        SourceFence::open().allows(other),
        SourceFence::open().allows_global(),
        SourceFence::open().attempted().allows(other),
        SourceFence::open().attempted().bound(other).allows(other),
{
}

/// Binding an attempt to its entity makes that the last bound one, which decides
/// what the next attempt distrusts.
pub proof fn law_the_bound_entity_is_remembered(fence: SourceFence, entity: u64)
    ensures
        fence.bound(entity).last_bound == Some(entity),
        fence.bound(entity).pending_rebind_entity is None,
        fence.bound(entity).ambiguous <==> fence.pending_rebind_entity == Some(entity),
        fence.attempted().pending_rebind_entity == fence.last_bound,
        fence.attempted().last_bound == fence.last_bound,
        fence.attempted().ambiguous == fence.ambiguous,
{
}

/// A token speaks for the epoch that it is bound to and for no other; without a
/// token the fence decides.
pub proof fn law_tokens_speak_for_their_epoch(
    producer: ProducerView,
    entity: u64,
    epoch: u64,
    token: u64,
)
    ensures
        producer.source_admitted(entity, epoch, Some(token)) <==> exists|i: int|
            0 <= i < producer.bindings.len() && #[trigger] producer.bindings[i] == (token, epoch),
        producer.source_admitted(entity, epoch, None) <==> !producer.source_fence.ambiguous
            && producer.source_fence.pending_rebind_entity != Some(entity),
{
}

/// A token that is free can be bound to an epoch that is free. From then on it is
/// bound, and what was bound before stays so.
pub proof fn law_free_tokens_can_be_bound(
    bindings: Bindings,
    token: u64,
    epoch: u64,
    other: (u64, u64),
)
    requires
        forall|i: int|
            0 <= i < bindings.len() ==> (#[trigger] bindings[i]).0 != token && bindings[i].1
                != epoch,
    ensures
        bindable(bindings, token, epoch),
        bound_pairs(bindings, token, epoch).contains((token, epoch)),
        bindings.contains(other) ==> bound_pairs(bindings, token, epoch).contains(other),
        bound_pairs(bindings, token, epoch).contains(other) ==> other == (token, epoch)
            || bindings.contains(other),
        bindable(bound_pairs(bindings, token, epoch), token, epoch),
{
    let after = bound_pairs(bindings, token, epoch);
    if bindings.contains((token, epoch)) {
        let i = choose|i: int| 0 <= i < bindings.len() && bindings[i] == (token, epoch);
        assert(bindings[i].0 == token);
    }
    assert(after[bindings.len() as int] == (token, epoch));
    if bindings.contains(other) {
        let i = choose|i: int| 0 <= i < bindings.len() && bindings[i] == other;
        assert(after[i] == other);
    }
    if after.contains(other) {
        let i = choose|i: int| 0 <= i < after.len() && after[i] == other;
        if i < bindings.len() {
            assert(bindings[i] == other);
        }
    }
}

/// The events of a run are numbered one after the other and stamped with the
/// session, the attempt, the world and the dimension that they belong to.
pub proof fn law_events_are_stamped(
    writer: EventWriter,
    source: FactSource,
    payload: BackendEventPayload,
    at: UtcInstant,
)
    requires
        writer.next_event < u64::MAX,
    ensures
        ({
            let event = writer.event(source, payload, at);
            &&& event.id == EventId::Event(writer.next_event)
            &&& event.occurred_at == at
            &&& event.process_session_id == writer.process_session_id
            &&& event.connection_epoch == writer.connection_epoch
            &&& event.connection_attempt_id == writer.connection_attempt_id
            &&& event.world_id == writer.world_id
            &&& event.dimension == writer.dimension
            &&& event.source == source
            &&& event.payload == payload
        }),
        writer.advanced() == (EventWriter {
            next_event: (writer.next_event + 1) as u64,
            ..writer
        }),
{
}

/// An attempt is stamped with its own epoch, and its dimension is not known.
pub proof fn law_attempts_start_without_a_dimension(writer: EventWriter, epoch: u64)
    ensures
        ({
            let after = writer.attempted(epoch);
            &&& after.connection_epoch == epoch
            &&& after.connection_attempt_id == (AttemptId { epoch })
            &&& after.dimension is None
            &&& after.process_session_id == writer.process_session_id
            &&& after.world_id == writer.world_id
            &&& after.next_event == writer.next_event
        }),
{
}

/// A scope that opens or closes is a new one: nothing is known in it, and packets
/// of the one before are told apart by its number.
pub proof fn law_scopes_are_numbered(producer: ProducerView, epoch: u64)
    requires
        producer.scope_generation < u64::MAX,
    ensures
        producer.scope_opened(epoch).scope_generation == producer.scope_generation + 1,
        producer.scope_closed().scope_generation == producer.scope_generation + 1,
        producer.scope_opened(epoch).owner == producer.owner,
        producer.scope_opened(epoch).source_fence == producer.source_fence,
        producer.scope_opened(epoch).bindings == producer.bindings,
        producer.scope_opened(epoch).attempt == producer.attempt,
        producer.scope_closed().owner == producer.owner,
        producer.scope_closed().source_fence == producer.source_fence,
        producer.scope_closed().bindings == producer.bindings,
        producer.scope_closed().attempt == producer.attempt,
{
}

/// A client is the current one if it owns the stream in the current epoch, and
/// its token is the one that is bound to that epoch.
pub proof fn law_the_current_client_owns_the_stream(
    runtime: RuntimeView,
    entity: u64,
    token: u64,
)
    ensures
        runtime.owned_by(ClientRef { entity, attempt_token: Some(token) })
            <==> runtime.producer.owner == Some((entity, runtime.writer.connection_epoch))
            && runtime.producer.bindings.contains((token, runtime.writer.connection_epoch)),
        runtime.owned_by(ClientRef { entity, attempt_token: None }) <==> runtime.producer.owner
            == Some((entity, runtime.writer.connection_epoch))
            && !runtime.producer.source_fence.ambiguous
            && runtime.producer.source_fence.pending_rebind_entity != Some(entity),
{
}

/// A fresh runtime is idle in epoch 0: nothing is connected, published, queued or
/// waited for, and its first event is number one.
pub proof fn law_a_fresh_runtime_is_idle(config: RunConfig, session: String, seed: u64)
    ensures
        ({
            let fresh = RuntimeView::initial(config, session, seed);
            &&& fresh.config == config
            &&& fresh.connection.state is Idle
            &&& fresh.connection.last_close is None
            &&& fresh.connection.last_failure is None
            &&& fresh.connection.stop_reason is None
            &&& fresh.connection.pending_connection is None
            &&& fresh.connection.active_client is None
            &&& fresh.connection.swarm is None
            &&& fresh.writer.process_session_id == session
            &&& fresh.writer.world_id == config.world_id
            &&& fresh.writer.connection_epoch == 0
            &&& fresh.writer.connection_attempt_id == (AttemptId { epoch: 0 })
            &&& fresh.writer.dimension is None
            &&& fresh.writer.next_event == 1
            &&& fresh.counters.phase_generation == 0
            &&& fresh.counters.stable_generation == 0
            &&& fresh.counters.stop_watchdog_generation == 0
            &&& fresh.counters.reconnect_attempt_token == 0
            &&& fresh.counters.retry_ordinal == 0
            &&& fresh.counters.lifecycle_revision == 0
            &&& fresh.counters.snapshot_revision == 0
            &&& fresh.counters.viewport_revision == 0
            &&& fresh.counters.command_revision == 0
            &&& fresh.counters.tick_revision == 0
            &&& fresh.counters.entity_packet_admission == 0
            &&& fresh.counters.movement_generation == 0
            &&& fresh.counters.reconnect_rng == seed
            &&& fresh.counters.last_subscriber == 0
            &&& fresh.counters.last_listener == 0
            &&& fresh.counters.last_completion == 0
            &&& fresh.counters.last_signal == 0
            &&& fresh.producer.owner is None
            &&& fresh.producer.attempt is NotStarted
            &&& fresh.producer.bindings.len() == 0
            &&& fresh.observation.snapshot is None
            &&& fresh.observation.tracked_entities.len() == 0
            &&& fresh.observation.generation == 0
            &&& fresh.observation.snapshot_scope_generation == 0
            &&& fresh.observation.world is None
            &&& fresh.observation.source is None
            &&& fresh.observation.entity_residuals.len() == 0
            &&& fresh.observation.armor is None
            &&& fresh.observation.armor_epoch is None
            &&& fresh.subscribers.len() == 0
            &&& fresh.listeners.len() == 0
            &&& fresh.commands.len() == 0
            &&& fresh.effects.len() == 0
            &&& fresh.stalled.len() == 0
            &&& !fresh.movement.active
            &&& !fresh.flags.ready
            &&& !fresh.flags.stopping
            &&& !fresh.flags.stop_requested
            &&& !fresh.flags.disconnect_reported
            &&& !fresh.flags.shutdown_requested
            &&& !fresh.flags.dispatch_cancelled
        }),
{
}

/// The runtime runs until it is stopping or its disconnect is reported, and for
/// no other reason.
pub proof fn law_the_runtime_runs_until_its_end(runtime: RuntimeView)
    ensures
        runtime.running() <==> !runtime.flags.stopping && !runtime.flags.disconnect_reported,
{
}

} // verus!
