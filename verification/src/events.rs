//! From an event to its subscribers: admission, draining and delivery.

use std::sync::Arc;

use vstd::prelude::*;

use crate::contract::{
    BackendEventEnvelope, BackendEventKind, BackendEventPayload, FactSource,
};
use crate::dispatch::{
    idle, BrokerView, DispatchView, EventDispatchState, ObservationSubscriptionStatus,
    RuntimeDispatchAdmission, RuntimeEventQueue,
};
use crate::lanes::{successor, LanePending, LanesView};
use crate::state::{
    all_bounded, next_number, Effect, ObservationSubscriber, RuntimeCounters, RuntimeFlags,
    RuntimeSubscriber, RuntimeView, SharedRuntime, SubscriberView,
};
use crate::time::UtcInstant;

verus! {

/// How many events and markers the lanes hold.
pub open spec fn held(lanes: LanesView) -> nat {
    lanes.ordinary.len() + lanes.control.len() + lanes.overflow.len() + (if lanes.terminal is Some {
        1nat
    } else {
        0nat
    })
}

/// A take hands out something exactly when something is held, and leaves less.
pub proof fn lemma_take_shrinks(lanes: LanesView)
    ensures
        lanes.next_item() is Some <==> held(lanes) > 0,
        lanes.next_item() is Some ==> held(lanes.popped()) < held(lanes),
        lanes.bounded() ==> lanes.popped().bounded(),
{
}

/// A listener gets an observation of its epoch, unless it cannot take one.
pub open spec fn due(listener: ObservationSubscriber, event: BackendEventEnvelope) -> bool {
    listener.epoch == event.connection_epoch && listener.status.reservable()
}

/// The deliveries of one observation, in the order of the listeners.
pub open spec fn deliveries(
    listeners: Seq<ObservationSubscriber>,
    event: Arc<BackendEventEnvelope>,
) -> Seq<Effect>
    decreases listeners.len(),
{
    if listeners.len() == 0 {
        Seq::empty()
    } else {
        let rest = deliveries(listeners.drop_last(), event);
        if due(listeners.last(), *event) {
            rest.push(Effect::Deliver { subscription: listeners.last().id, event })
        } else {
            rest
        }
    }
}

/// The listeners once their callbacks for one observation are reserved.
pub open spec fn reserved_listeners(
    listeners: Seq<ObservationSubscriber>,
    event: BackendEventEnvelope,
) -> Seq<ObservationSubscriber> {
    Seq::new(
        listeners.len(),
        |i: int|
            if due(listeners[i], event) {
                ObservationSubscriber { status: listeners[i].status.reserved(), ..listeners[i] }
            } else {
                listeners[i]
            },
    )
}

/// The subscribers once one event was published to each of them.
pub open spec fn published_to(
    subscribers: Seq<SubscriberView>,
    event: Arc<BackendEventEnvelope>,
    cancelled: bool,
) -> Seq<SubscriberView> {
    Seq::new(
        subscribers.len(),
        |i: int|
            SubscriberView {
                queue: subscribers[i].queue.published(event, cancelled),
                ..subscribers[i]
            },
    )
}

/// The subscribers once each tried its parked events again.
pub open spec fn resumed_all(
    subscribers: Seq<SubscriberView>,
    cancelled: bool,
) -> Seq<SubscriberView> {
    Seq::new(
        subscribers.len(),
        |i: int|
            SubscriberView { queue: subscribers[i].queue.resumed(cancelled), ..subscribers[i] },
    )
}

/// The dispatch queue after the stalled events tried again, one after another.
pub open spec fn retried(
    dispatch: DispatchView,
    stalled: Seq<LanePending>,
    cancelled: bool,
) -> DispatchView
    decreases stalled.len(),
{
    if stalled.len() == 0 {
        dispatch
    } else {
        retried(dispatch, stalled.drop_last(), cancelled).enqueued(stalled.last(), cancelled)
    }
}

/// The events that still find no room.
pub open spec fn still_stalled(
    dispatch: DispatchView,
    stalled: Seq<LanePending>,
    cancelled: bool,
) -> Seq<LanePending>
    decreases stalled.len(),
{
    if stalled.len() == 0 {
        Seq::empty()
    } else {
        let before = retried(dispatch, stalled.drop_last(), cancelled);
        let rest = still_stalled(dispatch, stalled.drop_last(), cancelled);
        if before.admission(stalled.last(), cancelled) == RuntimeDispatchAdmission::Wait {
            rest.push(stalled.last())
        } else {
            rest
        }
    }
}

/// The first subscriber with this id at or behind `from`; the length if there is none.
pub open spec fn slot_from(subscribers: Seq<SubscriberView>, id: u64, from: int) -> int
    decreases subscribers.len() - from,
{
    if from >= subscribers.len() {
        subscribers.len() as int
    } else if subscribers[from].id == id {
        from
    } else {
        slot_from(subscribers, id, from + 1)
    }
}

/// A listener stays registered while it is open or still has callbacks to return.
pub open spec fn registered(listener: ObservationSubscriber) -> bool {
    !listener.status.closed || listener.status.active_callbacks > 0
        || listener.status.pending_callbacks > 0
}

/// The change of one listener's status.
pub open spec fn with_status(
    listeners: Seq<ObservationSubscriber>,
    id: u64,
    change: spec_fn(ObservationSubscriptionStatus) -> ObservationSubscriptionStatus,
) -> Seq<ObservationSubscriber> {
    Seq::new(
        listeners.len(),
        |i: int|
            if listeners[i].id == id {
                ObservationSubscriber { status: change(listeners[i].status), ..listeners[i] }
            } else {
                listeners[i]
            },
    )
}

impl RuntimeView {
    /// An event takes its place in the dispatch queue. One that finds no room is
    /// kept aside in order. Also tells whether the caller became the drainer.
    #[verifier::opaque]
    pub open spec fn dispatched(self, event: Arc<BackendEventEnvelope>) -> (RuntimeView, bool) {
        let pending = LanePending {
            sequence: self.dispatch.lanes.next_sequence,
            session_id: 0,
            event,
        };
        let ticketed = DispatchView {
            lanes: LanesView {
                next_sequence: successor(self.dispatch.lanes.next_sequence),
                ..self.dispatch.lanes
            },
            ..self.dispatch
        };
        let admission = ticketed.admission(pending, self.flags.dispatch_cancelled);
        (
            RuntimeView {
                dispatch: ticketed.enqueued(pending, self.flags.dispatch_cancelled),
                stalled: if admission == RuntimeDispatchAdmission::Wait {
                    self.stalled.push(pending)
                } else {
                    self.stalled
                },
                ..self
            },
            admission == RuntimeDispatchAdmission::Accepted(true),
        )
    }

    /// An event is written and takes its place; a lifecycle event is also counted.
    pub open spec fn enqueued(
        self,
        source: FactSource,
        payload: BackendEventPayload,
        at: UtcInstant,
    ) -> (RuntimeView, bool) {
        let event = Arc::new(self.writer.event(source, payload, at));
        RuntimeView {
            counters: if payload.spec_kind() == BackendEventKind::Lifecycle {
                self.revised()
            } else {
                self.counters
            },
            writer: self.writer.advanced(),
            ..self
        }.dispatched(event)
    }

    /// The counters after one more lifecycle revision.
    pub open spec fn revised(self) -> RuntimeCounters {
        RuntimeCounters {
            lifecycle_revision: successor(self.counters.lifecycle_revision),
            ..self.counters
        }
    }

    /// One event reaches standard output, every subscriber and every listener.
    pub open spec fn broadcast(self, event: Arc<BackendEventEnvelope>) -> RuntimeView {
        let written = if self.config.emit_stdout {
            self.effects.push(Effect::WriteLine(event))
        } else {
            self.effects
        };
        RuntimeView {
            subscribers: published_to(self.subscribers, event, self.flags.dispatch_cancelled),
            listeners: if event.droppable() {
                reserved_listeners(self.listeners, *event)
            } else {
                self.listeners
            },
            effects: if event.droppable() {
                written + deliveries(self.listeners, event)
            } else {
                written
            },
            ..self
        }
    }

    /// Some subscriber holds an event that finds no room: draining has to wait.
    pub open spec fn backpressured(self) -> bool {
        exists|i: int|
            0 <= i < self.subscribers.len() && (#[trigger] self.subscribers[i]).queue.parked.len()
                > 0
    }

    /// The runtime once the drainer has handed on all that it can.
    #[verifier::opaque]
    pub open spec fn drained(self) -> RuntimeView
        decreases held(self.dispatch.lanes),
    {
        if self.backpressured() {
            self
        } else {
            match self.dispatch.lanes.next_item() {
                None => RuntimeView {
                    dispatch: DispatchView { drainer_active: false, ..self.dispatch },
                    ..self
                },
                Some(item) => {
                    proof {
                        lemma_take_shrinks(self.dispatch.lanes);
                    }
                    RuntimeView {
                        dispatch: DispatchView {
                            lanes: self.dispatch.lanes.popped(),
                            ..self.dispatch
                        },
                        ..self
                    }.broadcast(item.event).drained()
                },
            }
        }
    }

    /// What follows an admission: the one who became the drainer drains.
    pub open spec fn followed(step: (RuntimeView, bool)) -> RuntimeView {
        if step.1 {
            step.0.drained()
        } else {
            step.0
        }
    }

    pub open spec fn emitted(
        self,
        source: FactSource,
        payload: BackendEventPayload,
        at: UtcInstant,
    ) -> RuntimeView {
        Self::followed(self.enqueued(source, payload, at))
    }

    /// An ordinary event is dropped once the runtime stops or has disconnected.
    pub open spec fn emitted_if_running(
        self,
        source: FactSource,
        payload: BackendEventPayload,
        at: UtcInstant,
    ) -> RuntimeView {
        if self.running() {
            self.emitted(source, payload, at)
        } else {
            self
        }
    }

    pub open spec fn with_subscribers_resumed(self) -> RuntimeView {
        RuntimeView {
            subscribers: resumed_all(self.subscribers, self.flags.dispatch_cancelled),
            ..self
        }
    }

    pub open spec fn with_stalled_retried(self) -> RuntimeView {
        RuntimeView {
            dispatch: retried(self.dispatch, self.stalled, self.flags.dispatch_cancelled),
            stalled: still_stalled(self.dispatch, self.stalled, self.flags.dispatch_cancelled),
            ..self
        }
    }

    pub open spec fn drained_if_active(self) -> RuntimeView {
        if self.dispatch.drainer_active {
            self.drained()
        } else {
            self
        }
    }

    /// Everyone who waits for room tries again.
    #[verifier::opaque]
    pub open spec fn pumped(self) -> RuntimeView {
        self.with_subscribers_resumed().drained_if_active().with_stalled_retried().drained_if_active()
    }

    pub open spec fn admission_ended(self) -> RuntimeView {
        RuntimeView {
            flags: RuntimeFlags { dispatch_cancelled: true, ..self.flags },
            effects: self.effects.push(Effect::WakeDispatch),
            ..self
        }
    }

    /// Waiting for room is over: what waits is admitted or given up.
    pub open spec fn admission_cancelled(self) -> RuntimeView {
        self.admission_ended().pumped()
    }

    pub open spec fn subscribed(self) -> RuntimeView {
        let id = successor(self.counters.last_subscriber);
        RuntimeView {
            counters: RuntimeCounters { last_subscriber: id, ..self.counters },
            subscribers: self.subscribers.push(SubscriberView { id, queue: BrokerView::empty() }),
            ..self
        }
    }

    pub open spec fn slot(self, id: u64) -> int {
        slot_from(self.subscribers, id, 0)
    }

    pub open spec fn unsubscribed(self, id: u64) -> RuntimeView {
        if self.slot(id) < self.subscribers.len() {
            RuntimeView { subscribers: self.subscribers.remove(self.slot(id)), ..self }.pumped()
        } else {
            self
        }
    }

    /// The event that a subscriber takes next.
    pub open spec fn next_for(self, id: u64) -> Option<Arc<BackendEventEnvelope>> {
        if self.slot(id) < self.subscribers.len() {
            match self.subscribers[self.slot(id)].queue.lanes.next_item() {
                Some(item) => Some(item.event),
                None => None,
            }
        } else {
            None
        }
    }

    /// The runtime after a subscriber took its next event.
    pub open spec fn received(self, id: u64) -> RuntimeView {
        if self.slot(id) < self.subscribers.len() {
            let subscriber = self.subscribers[self.slot(id)];
            RuntimeView {
                subscribers: self.subscribers.update(
                    self.slot(id),
                    SubscriberView { queue: subscriber.queue.taken(), ..subscriber },
                ),
                ..self
            }.pumped()
        } else {
            self
        }
    }

    pub open spec fn listening(self, epoch: u64) -> RuntimeView {
        let id = successor(self.counters.last_listener);
        RuntimeView {
            counters: RuntimeCounters { last_listener: id, ..self.counters },
            listeners: self.listeners.push(
                ObservationSubscriber { id, epoch, status: ObservationSubscriptionStatus::fresh() },
            ),
            ..self
        }
    }

    /// More callbacks of the listener run than the caller runs itself.
    pub open spec fn listener_busy(self, id: u64, own_callbacks: u64) -> bool {
        exists|i: int|
            0 <= i < self.listeners.len() && (#[trigger] self.listeners[i]).id == id
                && self.listeners[i].status.active_callbacks > own_callbacks
    }

    /// The listener is closed or gone.
    pub open spec fn listener_closed(self, id: u64) -> bool {
        forall|i: int|
            0 <= i < self.listeners.len() && (#[trigger] self.listeners[i]).id == id
                ==> self.listeners[i].status.closed
    }

    /// A callback that was reserved for the listener may run.
    pub open spec fn listener_startable(self, id: u64) -> bool {
        exists|i: int|
            0 <= i < self.listeners.len() && (#[trigger] self.listeners[i]).id == id
                && self.listeners[i].status.startable()
    }

    /// Nothing is delivered to the listener any more.
    pub open spec fn listener_ended(self, id: u64) -> RuntimeView {
        self.listener_changed(
            id,
            |s: ObservationSubscriptionStatus| ObservationSubscriptionStatus { closed: true, ..s },
        )
    }

    /// A callback of the listener began, if one may.
    pub open spec fn listener_begun(self, id: u64) -> RuntimeView {
        self.listener_changed(id, |s: ObservationSubscriptionStatus| s.started())
    }

    /// A callback of the listener ended.
    pub open spec fn listener_rested(self, id: u64) -> RuntimeView {
        self.listener_changed(id, |s: ObservationSubscriptionStatus| s.finished())
    }

    pub open spec fn listener_changed(
        self,
        id: u64,
        change: spec_fn(ObservationSubscriptionStatus) -> ObservationSubscriptionStatus,
    ) -> RuntimeView {
        RuntimeView {
            listeners: with_status(self.listeners, id, change).filter(
                |l: ObservationSubscriber| registered(l),
            ),
            ..self
        }
    }
}

/// Publishing keeps a subscriber's lanes bounded.
proof fn lemma_published_bounded(
    queue: BrokerView,
    event: Arc<BackendEventEnvelope>,
    cancelled: bool,
)
    requires
        queue.lanes.bounded(),
    ensures
        queue.published(event, cancelled).lanes.bounded(),
{
}

/// Broadcasting keeps a runtime well-formed.
proof fn lemma_broadcast_wf(runtime: RuntimeView, event: Arc<BackendEventEnvelope>)
    requires
        runtime.wf(),
    ensures
        runtime.broadcast(event).wf(),
{
    reveal(all_bounded);
    let next = runtime.broadcast(event);
    assert forall|i: int| 0 <= i < next.subscribers.len() implies (
    #[trigger] next.subscribers[i]).queue.lanes.bounded() by {
        lemma_published_bounded(
            runtime.subscribers[i].queue,
            event,
            runtime.flags.dispatch_cancelled,
        );
    }
}

/// One step of draining: the first event leaves the queue and is broadcast.
pub open spec fn drain_step(runtime: RuntimeView) -> RuntimeView {
    RuntimeView {
        dispatch: DispatchView { lanes: runtime.dispatch.lanes.popped(), ..runtime.dispatch },
        ..runtime
    }.broadcast(runtime.dispatch.lanes.next_item()->0.event)
}

/// The parts of the runtime that draining leaves alone.
pub open spec fn same_but_queues(a: RuntimeView, b: RuntimeView) -> bool {
    &&& a.config == b.config
    &&& a.flags == b.flags
    &&& a.counters == b.counters
    &&& a.movement == b.movement
    &&& a.connection == b.connection
    &&& a.writer == b.writer
    &&& a.producer == b.producer
    &&& a.observation == b.observation
    &&& a.commands == b.commands
    &&& a.completions == b.completions
}

/// Draining keeps everything but the queues, the listeners and the effects.
pub proof fn lemma_drained_frame(runtime: RuntimeView)
    ensures
        same_but_queues(runtime.drained(), runtime),
        runtime.drained().stalled == runtime.stalled,
    decreases held(runtime.dispatch.lanes),
{
    reveal_with_fuel(RuntimeView::drained, 2);
    lemma_take_shrinks(runtime.dispatch.lanes);
    if !runtime.backpressured() && runtime.dispatch.lanes.next_item() is Some {
        lemma_drained_frame(drain_step(runtime));
    }
}

/// Draining keeps a runtime well-formed.
pub proof fn lemma_drained_wf(runtime: RuntimeView)
    requires
        runtime.wf(),
    ensures
        runtime.drained().wf(),
    decreases held(runtime.dispatch.lanes),
{
    reveal_with_fuel(RuntimeView::drained, 2);
    lemma_take_shrinks(runtime.dispatch.lanes);
    if !runtime.backpressured() && runtime.dispatch.lanes.next_item() is Some {
        let popped = RuntimeView {
            dispatch: DispatchView { lanes: runtime.dispatch.lanes.popped(), ..runtime.dispatch },
            ..runtime
        };
        assert(popped.wf());
        lemma_broadcast_wf(popped, runtime.dispatch.lanes.next_item()->0.event);
        lemma_drained_wf(drain_step(runtime));
    }
}

/// Admission to the dispatch queue keeps a runtime well-formed.
pub proof fn lemma_dispatched_wf(runtime: RuntimeView, event: Arc<BackendEventEnvelope>)
    requires
        runtime.wf(),
    ensures
        runtime.dispatched(event).0.wf(),
        same_but_queues(runtime.dispatched(event).0, runtime),
{
    reveal(RuntimeView::dispatched);
}

/// Reserves the callbacks of one observation and records their deliveries.
fn reserve_deliveries(
    listeners: &mut Vec<ObservationSubscriber>,
    effects: &mut Vec<Effect>,
    event: &Arc<BackendEventEnvelope>,
)
    ensures
        final(listeners)@ == reserved_listeners(old(listeners)@, **event),
        final(effects)@ == old(effects)@ + deliveries(old(listeners)@, *event),
{
    let ghost before = listeners@;
    let ghost first_effects = effects@;
    let mut i: usize = 0;
    while i < listeners.len()
        invariant
            i <= listeners@.len(),
            listeners@.len() == before.len(),
            forall|k: int|
                0 <= k < i ==> #[trigger] listeners@[k] == reserved_listeners(before, **event)[k],
            forall|k: int| i <= k < before.len() ==> #[trigger] listeners@[k] == before[k],
            effects@ == first_effects + deliveries(before.take(i as int), *event),
        decreases listeners@.len() - i,
    {
        let mut listener = listeners[i];
        proof {
            assert(before.take(i + 1).drop_last() =~= before.take(i as int));
            assert(before.take(i + 1).last() == listener);
        }
        if listener.epoch == event.connection_epoch {
            if listener.status.reserve_callback() {
                effects.push(Effect::Deliver { subscription: listener.id, event: event.clone() });
                listeners.set(i, listener);
            }
        }
        i = i + 1;
    }
    assert(before.take(i as int) =~= before);
    assert(listeners@ =~= reserved_listeners(before, **event));
}

impl SharedRuntime {
    /// Gives an event its place in the dispatch queue and admits it, or keeps it
    /// aside until there is room. Tells whether the caller has to drain.
    pub fn enqueue_dispatch(&mut self, event: Arc<BackendEventEnvelope>) -> (should_drain: bool)
        requires
            old(self)@.wf(),
        ensures
            (final(self)@, should_drain) == old(self)@.dispatched(event),
            final(self)@.wf(),
    {
        proof {
            lemma_dispatched_wf(self@, event);
            reveal(RuntimeView::dispatched);
        }
        let cancelled: bool = self.flags.dispatch_cancelled;
        let pending = self.dispatch.lanes.ticket(0, event);
        match self.dispatch.enqueue(&pending, cancelled) {
            RuntimeDispatchAdmission::Accepted(should_drain) => should_drain,
            RuntimeDispatchAdmission::Cancelled => false,
            RuntimeDispatchAdmission::Wait => {
                self.stalled.push(pending);
                false
            },
        }
    }

    /// Writes one event and admits it. Nothing is drained here.
    pub fn enqueue_event(
        &mut self,
        source: FactSource,
        payload: BackendEventPayload,
        at: UtcInstant,
    ) -> (should_drain: bool)
        requires
            old(self)@.wf(),
        ensures
            (final(self)@, should_drain) == old(self)@.enqueued(source, payload, at),
            final(self)@.wf(),
    {
        if let BackendEventKind::Lifecycle = payload.kind() {
            self.counters.lifecycle_revision = next_number(self.counters.lifecycle_revision);
        }
        let event = Arc::new(self.writer.emit_at(source, payload, at));
        assert(self@ =~= RuntimeView {
            counters: if payload.spec_kind() == BackendEventKind::Lifecycle {
                old(self)@.revised()
            } else {
                old(self)@.counters
            },
            writer: old(self)@.writer.advanced(),
            ..old(self)@
        });
        self.enqueue_dispatch(event)
    }

    /// Publishes one event to every subscriber.
    fn publish_to_subscribers(&mut self, event: &Arc<BackendEventEnvelope>)
        requires
            old(self)@.wf(),
        ensures
            final(self)@ == (RuntimeView {
                subscribers: published_to(
                    old(self)@.subscribers,
                    *event,
                    old(self)@.flags.dispatch_cancelled,
                ),
                ..old(self)@
            }),
    {
        reveal(all_bounded);
        let ghost before = self@;
        let cancelled: bool = self.flags.dispatch_cancelled;
        let mut i: usize = 0;
        while i < self.subscribers.len()
            invariant
                i <= self.subscribers@.len(),
                self.subscribers@.len() == before.subscribers.len(),
                before.wf(),
                cancelled == before.flags.dispatch_cancelled,
                forall|k: int|
                    0 <= k < i ==> (#[trigger] self.subscribers@[k])@ == published_to(
                        before.subscribers,
                        *event,
                        cancelled,
                    )[k],
                forall|k: int|
                    i <= k < before.subscribers.len() ==> (#[trigger] self.subscribers@[k])@
                        == before.subscribers[k],
                self@ == (RuntimeView { subscribers: self@.subscribers, ..before }),
            decreases self.subscribers@.len() - i,
        {
            assert(before.subscribers[i as int].queue.lanes.bounded()) by {
                reveal(all_bounded);
            }
            assert(self.subscribers@[i as int]@ == before.subscribers[i as int]);
            let _ = self.subscribers[i].queue.publish(event.clone(), cancelled);
            i = i + 1;
        }
        assert(self@.subscribers =~= published_to(before.subscribers, *event, cancelled));
    }

    /// Hands one event to standard output, the subscribers and the listeners.
    pub fn broadcast_event(&mut self, event: Arc<BackendEventEnvelope>)
        requires
            old(self)@.wf(),
        ensures
            final(self)@ == old(self)@.broadcast(event),
            final(self)@.wf(),
    {
        proof {
            lemma_broadcast_wf(self@, event);
        }
        if self.config.emit_stdout {
            self.effects.push(Effect::WriteLine(event.clone()));
        }
        self.publish_to_subscribers(&event);
        if event.is_droppable() {
            reserve_deliveries(&mut self.listeners, &mut self.effects, &event);
        }
        assert(self@ =~= old(self)@.broadcast(event));
    }

    /// Tells whether some subscriber holds an event that finds no room.
    fn is_backpressured(&self) -> (r: bool)
        ensures
            r == self@.backpressured(),
    {
        let mut i: usize = 0;
        while i < self.subscribers.len()
            invariant
                i <= self.subscribers@.len(),
                forall|k: int|
                    0 <= k < i ==> (#[trigger] self@.subscribers[k]).queue.parked.len() == 0,
            decreases self.subscribers@.len() - i,
        {
            if self.subscribers[i].queue.parked.len() > 0 {
                assert(self@.subscribers[i as int].queue.parked.len() > 0);
                return true;
            }
            i = i + 1;
        }
        false
    }

    /// Hands on events in order until the queue is empty or a subscriber has no
    /// room; in that case whoever makes room drains on.
    pub fn drain_events(&mut self)
        requires
            old(self)@.wf(),
        ensures
            final(self)@ == old(self)@.drained(),
            final(self)@.wf(),
    {
        let ghost before = self@;
        loop
            invariant
                self@.wf(),
                self@.drained() == before.drained(),
            ensures
                self@ == before.drained(),
                self@.wf(),
            decreases held(self.dispatch@.lanes),
        {
            proof {
                reveal_with_fuel(RuntimeView::drained, 2);
            }
            if self.is_backpressured() {
                break;
            }
            proof {
                lemma_take_shrinks(self@.dispatch.lanes);
            }
            let ghost current = self@;
            match self.dispatch.lanes.pop_next() {
                None => {
                    self.dispatch.drainer_active = false;
                    assert(current.dispatch.lanes.next_item() is None);
                    assert(self@ =~= current.drained());
                    break;
                },
                Some(item) => {
                    self.broadcast_event(item.event);
                    assert(self@ =~= drain_step(current));
                },
            }
        }
    }

    /// Emits one event and drains if that falls to the caller.
    pub fn emit(&mut self, source: FactSource, payload: BackendEventPayload, at: UtcInstant)
        requires
            old(self)@.wf(),
        ensures
            final(self)@ == old(self)@.emitted(source, payload, at),
            final(self)@.wf(),
    {
        if self.enqueue_event(source, payload, at) {
            self.drain_events();
        }
    }

    /// Emits an ordinary event, unless the runtime stops or has disconnected.
    pub fn emit_if_running(
        &mut self,
        source: FactSource,
        payload: BackendEventPayload,
        at: UtcInstant,
    ) -> (emitted: bool)
        requires
            old(self)@.wf(),
        ensures
            emitted == old(self)@.running(),
            final(self)@ == old(self)@.emitted_if_running(source, payload, at),
            final(self)@.wf(),
    {
        if !self.command_execution_allowed() {
            return false;
        }
        self.emit(source, payload, at);
        true
    }
}

/// Trying events keeps a subscriber's lanes bounded.
proof fn lemma_tried_bounded(queue: BrokerView, waiting: Seq<LanePending>, cancelled: bool)
    requires
        queue.lanes.bounded(),
    ensures
        queue.tried_all(waiting, cancelled).lanes.bounded(),
    decreases waiting.len(),
{
    if waiting.len() > 0 {
        lemma_tried_bounded(queue, waiting.drop_last(), cancelled);
    }
}

/// Retrying the parked events keeps a subscriber's lanes bounded.
proof fn lemma_resumed_bounded(queue: BrokerView, cancelled: bool)
    requires
        queue.lanes.bounded(),
    ensures
        queue.resumed(cancelled).lanes.bounded(),
{
    lemma_tried_bounded(queue.unparked(), queue.parked, cancelled);
}

/// Tries every stalled event once, in order, and keeps those without room.
fn retry_stalled_events(
    dispatch: &mut EventDispatchState,
    stalled: &mut Vec<LanePending>,
    cancelled: bool,
)
    requires
        old(dispatch)@.lanes.bounded(),
    ensures
        final(dispatch)@ == retried(old(dispatch)@, old(stalled)@, cancelled),
        final(stalled)@ == still_stalled(old(dispatch)@, old(stalled)@, cancelled),
        final(dispatch)@.lanes.bounded(),
{
    let ghost first = dispatch@;
    let mut waiting: Vec<LanePending> = Vec::new();
    core::mem::swap(&mut waiting, stalled);
    let mut i: usize = 0;
    while i < waiting.len()
        invariant
            i <= waiting@.len(),
            dispatch@.lanes.bounded(),
            dispatch@ == retried(first, waiting@.take(i as int), cancelled),
            stalled@ == still_stalled(first, waiting@.take(i as int), cancelled),
        decreases waiting@.len() - i,
    {
        let pending = waiting[i].clone();
        proof {
            assert(waiting@.take(i + 1).drop_last() =~= waiting@.take(i as int));
            assert(waiting@.take(i + 1).last() == pending);
        }
        match dispatch.enqueue(&pending, cancelled) {
            RuntimeDispatchAdmission::Wait => {
                stalled.push(pending);
            },
            _ => {},
        }
        i = i + 1;
    }
    assert(waiting@.take(i as int) =~= waiting@);
}

/// Keeps the listeners that are still registered.
fn sweep_listeners(listeners: &mut Vec<ObservationSubscriber>)
    ensures
        final(listeners)@ == old(listeners)@.filter(|l: ObservationSubscriber| registered(l)),
{
    let ghost all = listeners@;
    let ghost kept = |l: ObservationSubscriber| registered(l);
    let mut rest: Vec<ObservationSubscriber> = Vec::new();
    let mut i: usize = 0;
    while i < listeners.len()
        invariant
            i <= listeners@.len(),
            listeners@ == all,
            kept == (|l: ObservationSubscriber| registered(l)),
            rest@ == all.take(i as int).filter(kept),
        decreases listeners@.len() - i,
    {
        let listener = listeners[i];
        proof {
            reveal(Seq::filter);
            assert(all.take(i + 1).drop_last() =~= all.take(i as int));
            assert(all.take(i + 1).last() == listener);
        }
        if !listener.status.closed || listener.status.active_callbacks > 0
            || listener.status.pending_callbacks > 0 {
            rest.push(listener);
        }
        i = i + 1;
    }
    assert(all.take(i as int) =~= all);
    core::mem::swap(listeners, &mut rest);
}

impl SharedRuntime {
    /// Lets every subscriber try its parked events again.
    fn resume_subscribers(&mut self)
        requires
            old(self)@.wf(),
        ensures
            final(self)@ == old(self)@.with_subscribers_resumed(),
            final(self)@.wf(),
    {
        reveal(all_bounded);
        let ghost before = self@;
        let cancelled: bool = self.flags.dispatch_cancelled;
        let mut i: usize = 0;
        while i < self.subscribers.len()
            invariant
                i <= self.subscribers@.len(),
                self.subscribers@.len() == before.subscribers.len(),
                before.wf(),
                cancelled == before.flags.dispatch_cancelled,
                forall|k: int|
                    0 <= k < i ==> (#[trigger] self.subscribers@[k])@ == resumed_all(
                        before.subscribers,
                        cancelled,
                    )[k],
                forall|k: int|
                    i <= k < before.subscribers.len() ==> (#[trigger] self.subscribers@[k])@
                        == before.subscribers[k],
                self@ == (RuntimeView { subscribers: self@.subscribers, ..before }),
            decreases self.subscribers@.len() - i,
        {
            assert(before.subscribers[i as int].queue.lanes.bounded()) by {
                reveal(all_bounded);
            }
            assert(self.subscribers@[i as int]@ == before.subscribers[i as int]);
            let _ = self.subscribers[i].queue.resume(cancelled);
            i = i + 1;
        }
        assert(self@.subscribers =~= resumed_all(before.subscribers, cancelled));
        assert forall|k: int| 0 <= k < self@.subscribers.len() implies (
        #[trigger] self@.subscribers[k]).queue.lanes.bounded() by {
            lemma_resumed_bounded(before.subscribers[k].queue, cancelled);
        }
    }

    fn drain_if_active(&mut self)
        requires
            old(self)@.wf(),
        ensures
            final(self)@ == old(self)@.drained_if_active(),
            final(self)@.wf(),
    {
        if self.dispatch.drainer_active {
            self.drain_events();
        }
    }

    fn retry_stalled(&mut self)
        requires
            old(self)@.wf(),
        ensures
            final(self)@ == old(self)@.with_stalled_retried(),
            final(self)@.wf(),
    {
        let cancelled: bool = self.flags.dispatch_cancelled;
        retry_stalled_events(&mut self.dispatch, &mut self.stalled, cancelled);
    }

    /// Lets everyone who waits for room try again.
    pub fn pump_events(&mut self)
        requires
            old(self)@.wf(),
        ensures
            final(self)@ == old(self)@.pumped(),
            final(self)@.wf(),
    {
        reveal(RuntimeView::pumped);
        self.resume_subscribers();
        self.drain_if_active();
        self.retry_stalled();
        self.drain_if_active();
    }

    fn end_admission(&mut self)
        requires
            old(self)@.wf(),
        ensures
            final(self)@ == old(self)@.admission_ended(),
            final(self)@.wf(),
    {
        self.flags.dispatch_cancelled = true;
        self.effects.push(Effect::WakeDispatch);
    }

    /// Ends all waiting for room: producers and subscribers converge at once.
    pub fn cancel_event_admission(&mut self)
        requires
            old(self)@.wf(),
        ensures
            final(self)@ == old(self)@.admission_cancelled(),
            final(self)@.wf(),
    {
        self.end_admission();
        self.pump_events();
    }

    /// Adds a subscriber of the event stream.
    pub fn subscribe(&mut self) -> (id: u64)
        requires
            old(self)@.wf(),
        ensures
            id == successor(old(self)@.counters.last_subscriber),
            final(self)@ == old(self)@.subscribed(),
            final(self)@.wf(),
    {
        reveal(all_bounded);
        let ghost before = self@;
        let id: u64 = next_number(self.counters.last_subscriber);
        self.counters.last_subscriber = id;
        self.subscribers.push(RuntimeSubscriber { id, queue: RuntimeEventQueue::new() });
        assert(self@.subscribers =~= before.subscribers.push(
            SubscriberView { id, queue: BrokerView::empty() },
        ));
        assert forall|k: int| 0 <= k < self@.subscribers.len() implies (
        #[trigger] self@.subscribers[k]).queue.lanes.bounded() by {
            if k < before.subscribers.len() {
                assert(before.subscribers[k].queue.lanes.bounded());
            }
        }
        id
    }

    fn subscriber_slot(&self, id: u64) -> (slot: usize)
        ensures
            slot == self@.slot(id),
            slot <= self.subscribers@.len(),
            slot < self.subscribers@.len() ==> self.subscribers@[slot as int].id == id,
    {
        let mut i: usize = 0;
        while i < self.subscribers.len()
            invariant
                i <= self.subscribers@.len(),
                slot_from(self@.subscribers, id, i as int) == self@.slot(id),
            decreases self.subscribers@.len() - i,
        {
            if self.subscribers[i].id == id {
                return i;
            }
            i = i + 1;
        }
        i
    }

    /// Removes a subscriber; what it blocked goes on.
    pub fn unsubscribe(&mut self, id: u64)
        requires
            old(self)@.wf(),
        ensures
            final(self)@ == old(self)@.unsubscribed(id),
            final(self)@.wf(),
    {
        reveal(all_bounded);
        let ghost before = self@;
        let slot: usize = self.subscriber_slot(id);
        if slot < self.subscribers.len() {
            let _ = self.subscribers.remove(slot);
            assert(self@.subscribers =~= before.subscribers.remove(slot as int));
            assert forall|k: int| 0 <= k < self@.subscribers.len() implies (
            #[trigger] self@.subscribers[k]).queue.lanes.bounded() by {
                if k < slot {
                    assert(before.subscribers[k].queue.lanes.bounded());
                } else {
                    assert(before.subscribers[k + 1].queue.lanes.bounded());
                }
            }
            self.pump_events();
        }
    }

    /// Takes a subscriber's next event; what waited for that room goes on.
    pub fn take_event(&mut self, id: u64) -> (event: Option<Arc<BackendEventEnvelope>>)
        requires
            old(self)@.wf(),
        ensures
            event == old(self)@.next_for(id),
            final(self)@ == old(self)@.received(id),
            final(self)@.wf(),
    {
        reveal(all_bounded);
        let ghost before = self@;
        let slot: usize = self.subscriber_slot(id);
        if slot < self.subscribers.len() {
            assert(before.subscribers[slot as int].queue.lanes.bounded());
            let event = self.subscribers[slot].queue.pop();
            assert(self@.subscribers =~= before.subscribers.update(
                slot as int,
                SubscriberView {
                    queue: before.subscribers[slot as int].queue.taken(),
                    ..before.subscribers[slot as int]
                },
            ));
            assert forall|k: int| 0 <= k < self@.subscribers.len() implies (
            #[trigger] self@.subscribers[k]).queue.lanes.bounded() by {
                assert(before.subscribers[k].queue.lanes.bounded());
            }
            self.pump_events();
            event
        } else {
            None
        }
    }

    /// Registers a listener for the observations of one epoch.
    pub fn add_observation_subscription(&mut self, epoch: u64) -> (id: u64)
        requires
            old(self)@.wf(),
        ensures
            id == successor(old(self)@.counters.last_listener),
            final(self)@ == old(self)@.listening(epoch),
            final(self)@.wf(),
    {
        let id: u64 = next_number(self.counters.last_listener);
        self.counters.last_listener = id;
        self.listeners.push(
            ObservationSubscriber { id, epoch, status: ObservationSubscriptionStatus::new() },
        );
        id
    }

    /// Closes a listener: nothing is delivered to it any more. It is forgotten
    /// when its last callback has been returned.
    pub fn remove_observation_subscription(&mut self, id: u64)
        requires
            old(self)@.wf(),
        ensures
            final(self)@ == old(self)@.listener_ended(id),
            final(self)@.wf(),
    {
        let ghost all = self.listeners@;
        let ghost change = |s: ObservationSubscriptionStatus|
            ObservationSubscriptionStatus { closed: true, ..s };
        let mut i: usize = 0;
        while i < self.listeners.len()
            invariant
                i <= self.listeners@.len(),
                self.listeners@.len() == all.len(),
                change == (|s: ObservationSubscriptionStatus|
                    ObservationSubscriptionStatus { closed: true, ..s }),
                forall|k: int|
                    0 <= k < i ==> #[trigger] self.listeners@[k] == with_status(all, id, change)[k],
                forall|k: int| i <= k < all.len() ==> #[trigger] self.listeners@[k] == all[k],
                self@ == (RuntimeView { listeners: self.listeners@, ..old(self)@ }),
            decreases self.listeners@.len() - i,
        {
            let mut listener = self.listeners[i];
            if listener.id == id {
                listener.status.close();
                self.listeners.set(i, listener);
            }
            i = i + 1;
        }
        assert(self.listeners@ =~= with_status(all, id, change));
        sweep_listeners(&mut self.listeners);
    }

    /// Turns a reservation into a running callback; tells whether it may run.
    pub fn start_observation_callback(&mut self, id: u64) -> (started: bool)
        requires
            old(self)@.wf(),
        ensures
            started == old(self)@.listener_startable(id),
            final(self)@ == old(self)@.listener_begun(id),
            final(self)@.wf(),
    {
        let ghost all = self.listeners@;
        let ghost change = |s: ObservationSubscriptionStatus| s.started();
        let mut started: bool = false;
        let mut i: usize = 0;
        while i < self.listeners.len()
            invariant
                i <= self.listeners@.len(),
                self.listeners@.len() == all.len(),
                all == old(self)@.listeners,
                change == (|s: ObservationSubscriptionStatus| s.started()),
                forall|k: int|
                    0 <= k < i ==> #[trigger] self.listeners@[k] == with_status(all, id, change)[k],
                forall|k: int| i <= k < all.len() ==> #[trigger] self.listeners@[k] == all[k],
                self@ == (RuntimeView { listeners: self.listeners@, ..old(self)@ }),
                started == (exists|k: int|
                    0 <= k < i && (#[trigger] all[k]).id == id && all[k].status.startable()),
            decreases self.listeners@.len() - i,
        {
            let mut listener = self.listeners[i];
            assert(all[i as int] == listener);
            if listener.id == id {
                if listener.status.start_callback() {
                    started = true;
                }
                self.listeners.set(i, listener);
            }
            i = i + 1;
        }
        assert(self.listeners@ =~= with_status(all, id, change));
        sweep_listeners(&mut self.listeners);
        started
    }

    /// Returns the lease of a callback that has ended.
    pub fn finish_observation_callback(&mut self, id: u64)
        requires
            old(self)@.wf(),
        ensures
            final(self)@ == old(self)@.listener_rested(id),
            final(self)@.wf(),
    {
        let ghost all = self.listeners@;
        let ghost change = |s: ObservationSubscriptionStatus| s.finished();
        let mut i: usize = 0;
        while i < self.listeners.len()
            invariant
                i <= self.listeners@.len(),
                self.listeners@.len() == all.len(),
                change == (|s: ObservationSubscriptionStatus| s.finished()),
                forall|k: int|
                    0 <= k < i ==> #[trigger] self.listeners@[k] == with_status(all, id, change)[k],
                forall|k: int| i <= k < all.len() ==> #[trigger] self.listeners@[k] == all[k],
                self@ == (RuntimeView { listeners: self.listeners@, ..old(self)@ }),
            decreases self.listeners@.len() - i,
        {
            let mut listener = self.listeners[i];
            if listener.id == id {
                let _ = listener.status.finish_callback();
                self.listeners.set(i, listener);
            }
            i = i + 1;
        }
        assert(self.listeners@ =~= with_status(all, id, change));
        sweep_listeners(&mut self.listeners);
    }

    /// Whoever closes a listener waits while more of its callbacks run than the
    /// caller runs itself.
    pub fn observation_must_wait(&self, id: u64, own_callbacks: u64) -> (r: bool)
        ensures
            r == self@.listener_busy(id, own_callbacks),
    {
        let mut i: usize = 0;
        while i < self.listeners.len()
            invariant
                i <= self.listeners@.len(),
                forall|k: int|
                    0 <= k < i ==> !((#[trigger] self.listeners@[k]).id == id
                        && self.listeners@[k].status.active_callbacks > own_callbacks),
            decreases self.listeners@.len() - i,
        {
            let listener = self.listeners[i];
            if listener.id == id && listener.status.must_wait(own_callbacks) {
                assert(self@.listeners[i as int] == listener);
                return true;
            }
            i = i + 1;
        }
        false
    }

    /// Tells whether a listener is closed or gone.
    pub fn observation_is_closed(&self, id: u64) -> (r: bool)
        ensures
            r == self@.listener_closed(id),
    {
        let mut i: usize = 0;
        while i < self.listeners.len()
            invariant
                i <= self.listeners@.len(),
                forall|k: int|
                    0 <= k < i && (#[trigger] self.listeners@[k]).id == id
                        ==> self.listeners@[k].status.closed,
            decreases self.listeners@.len() - i,
        {
            let listener = self.listeners[i];
            if listener.id == id && !listener.status.is_closed() {
                assert(self@.listeners[i as int] == listener);
                return false;
            }
            i = i + 1;
        }
        true
    }
}

/// A listener hears only observations of the epoch in which it subscribed, and
/// none once it is closed.
pub proof fn law_listeners_hear_their_own_epoch(
    listeners: Seq<ObservationSubscriber>,
    event: Arc<BackendEventEnvelope>,
    at: int,
)
    requires
        0 <= at < deliveries(listeners, event).len(),
    ensures
        exists|i: int|
            0 <= i < listeners.len() && (#[trigger] listeners[i]).epoch == event.connection_epoch
                && !listeners[i].status.closed && deliveries(listeners, event)[at] == (
            Effect::Deliver { subscription: listeners[i].id, event }),
    decreases listeners.len(),
{
    if listeners.len() > 0 {
        let rest = deliveries(listeners.drop_last(), event);
        if at < rest.len() {
            law_listeners_hear_their_own_epoch(listeners.drop_last(), event, at);
            let i = choose|i: int|
                0 <= i < listeners.drop_last().len() && (
                #[trigger] listeners.drop_last()[i]).epoch == event.connection_epoch
                    && !listeners.drop_last()[i].status.closed && rest[at] == (Effect::Deliver {
                    subscription: listeners.drop_last()[i].id,
                    event,
                });
            assert(listeners[i] == listeners.drop_last()[i]);
        } else {
            assert(listeners[listeners.len() - 1] == listeners.last());
        }
    }
}

/// A listener that is told of the observations of this event's epoch.
pub open spec fn listens(listener: ObservationSubscriber, event: Arc<BackendEventEnvelope>) -> bool {
    &&& listener.epoch == event.connection_epoch
    &&& !listener.status.closed
    &&& listener.status.pending_callbacks < u64::MAX
}

proof fn lemma_delivered(
    listeners: Seq<ObservationSubscriber>,
    event: Arc<BackendEventEnvelope>,
    at: int,
) -> (place: int)
    requires
        0 <= at < listeners.len(),
        listens(listeners[at], event),
    ensures
        0 <= place < deliveries(listeners, event).len(),
        deliveries(listeners, event)[place] == (Effect::Deliver {
            subscription: listeners[at].id,
            event,
        }),
    decreases listeners.len(),
{
    let rest = deliveries(listeners.drop_last(), event);
    if at == listeners.len() - 1 {
        assert(deliveries(listeners, event).last() == (Effect::Deliver {
            subscription: listeners[at].id,
            event,
        }));
        deliveries(listeners, event).len() - 1
    } else {
        assert(listeners.drop_last()[at] == listeners[at]);
        let place = lemma_delivered(listeners.drop_last(), event, at);
        assert(deliveries(listeners, event)[place] == rest[place]);
        place
    }
}

proof fn lemma_delivery_count(
    listeners: Seq<ObservationSubscriber>,
    event: Arc<BackendEventEnvelope>,
)
    ensures
        deliveries(listeners, event).len() == listeners.filter(
            |l: ObservationSubscriber| listens(l, event),
        ).len(),
    decreases listeners.len(),
{
    reveal(Seq::filter);
    if listeners.len() > 0 {
        lemma_delivery_count(listeners.drop_last(), event);
    }
}

/// Every open listener of the epoch hears of every entity, block and sound:
/// broadcasting adds one delivery for each of them, and only those, and reserves
/// its callback. Nothing that was to be done before is lost.
pub proof fn law_observations_reach_every_open_listener(
    runtime: RuntimeView,
    event: Arc<BackendEventEnvelope>,
    at: int,
)
    requires
        event.payload is Entity || event.payload is Block || event.payload is Sound,
        0 <= at < runtime.listeners.len(),
    ensures
        ({
            let after = runtime.broadcast(event);
            &&& runtime.effects.is_prefix_of(after.effects)
            &&& after.effects.len() == runtime.effects.len() + (if runtime.config.emit_stdout {
                1int
            } else {
                0
            }) + runtime.listeners.filter(
                |l: ObservationSubscriber| listens(l, event),
            ).len()
            &&& after.listeners.len() == runtime.listeners.len()
            &&& listens(runtime.listeners[at], event) ==> {
                &&& exists|i: int|
                    runtime.effects.len() <= i < after.effects.len() && #[trigger] after.effects[i]
                        == (Effect::Deliver { subscription: runtime.listeners[at].id, event })
                &&& after.listeners[at] == (ObservationSubscriber {
                    status: ObservationSubscriptionStatus {
                        pending_callbacks: (runtime.listeners[at].status.pending_callbacks
                            + 1) as u64,
                        ..runtime.listeners[at].status
                    },
                    ..runtime.listeners[at]
                })
            }
            &&& !listens(runtime.listeners[at], event) ==> after.listeners[at]
                == runtime.listeners[at]
        }),
{
    let after = runtime.broadcast(event);
    let written = if runtime.config.emit_stdout {
        runtime.effects.push(Effect::WriteLine(event))
    } else {
        runtime.effects
    };
    lemma_delivery_count(runtime.listeners, event);
    assert(after.effects == written + deliveries(runtime.listeners, event));
    if listens(runtime.listeners[at], event) {
        let place = lemma_delivered(runtime.listeners, event, at);
        assert(after.effects[written.len() + place] == (Effect::Deliver {
            subscription: runtime.listeners[at].id,
            event,
        }));
    }
}

/// Every other event reaches no listener: nothing is delivered and no callback
/// is reserved.
pub proof fn law_other_events_reach_no_listener(
    runtime: RuntimeView,
    event: Arc<BackendEventEnvelope>,
)
    requires
        !(event.payload is Entity),
        !(event.payload is Block),
        !(event.payload is Sound),
    ensures
        runtime.broadcast(event).listeners == runtime.listeners,
        runtime.broadcast(event).effects == (if runtime.config.emit_stdout {
            runtime.effects.push(Effect::WriteLine(event))
        } else {
            runtime.effects
        }),
{
}

/// An event is written to standard output first, if the run is configured to.
pub proof fn law_events_are_written_out(runtime: RuntimeView, event: Arc<BackendEventEnvelope>)
    ensures
        runtime.config.emit_stdout ==> runtime.broadcast(event).effects.len()
            > runtime.effects.len() && runtime.broadcast(event).effects[runtime.effects.len() as int]
            == Effect::WriteLine(event),
{
}

/// Nothing is on its way: the dispatch queue is empty, nobody drains it and
/// every subscriber has read everything.
pub open spec fn quiet(runtime: RuntimeView) -> bool {
    &&& runtime.dispatch.lanes.ordinary.len() == 0
    &&& runtime.dispatch.lanes.control.len() == 0
    &&& runtime.dispatch.lanes.overflow.len() == 0
    &&& runtime.dispatch.lanes.terminal is None
    &&& runtime.dispatch.lanes.next_admission == runtime.dispatch.lanes.next_sequence
    &&& !runtime.dispatch.drainer_active
    &&& runtime.stalled.len() == 0
    &&& forall|i: int|
        0 <= i < runtime.subscribers.len() ==> idle((#[trigger] runtime.subscribers[i]).queue)
}

/// An event that is emitted while nothing is on its way reaches everyone at
/// once: each subscriber reads it next, each open listener is told of it if it is
/// about the world, and the queue is empty again. It carries the next number and
/// the identity of the session, the attempt and the world.
pub proof fn law_an_emitted_event_reaches_everyone(
    runtime: RuntimeView,
    source: FactSource,
    payload: BackendEventPayload,
    at: UtcInstant,
    subscriber: int,
    listener: int,
)
    requires
        quiet(runtime),
        runtime.dispatch.lanes.next_sequence < u64::MAX,
        forall|i: int|
            0 <= i < runtime.subscribers.len() ==> (
            #[trigger] runtime.subscribers[i]).queue.lanes.next_sequence < u64::MAX - 1,
        runtime.writer.next_event < u64::MAX,
    ensures
        ({
            let after = runtime.emitted(source, payload, at);
            let event = BackendEventEnvelope {
                id: crate::contract::EventId::Event(runtime.writer.next_event),
                occurred_at: at,
                process_session_id: runtime.writer.process_session_id,
                connection_epoch: runtime.writer.connection_epoch,
                connection_attempt_id: runtime.writer.connection_attempt_id,
                world_id: runtime.writer.world_id,
                dimension: runtime.writer.dimension,
                source,
                payload,
            };
            &&& after.writer.next_event == runtime.writer.next_event + 1
            &&& after.subscribers.len() == runtime.subscribers.len()
            &&& 0 <= subscriber < runtime.subscribers.len() ==> {
                &&& after.subscribers[subscriber].id == runtime.subscribers[subscriber].id
                &&& after.subscribers[subscriber].queue.lanes.next_item() matches Some(item)
                    && *item.event == event
            }
            &&& 0 <= listener < runtime.listeners.len() && listens(
                runtime.listeners[listener],
                Arc::new(event),
            ) && (payload is Entity || payload is Block || payload is Sound) ==> exists|i: int|
                runtime.effects.len() <= i < after.effects.len() && #[trigger] after.effects[i] == (
                Effect::Deliver {
                    subscription: runtime.listeners[listener].id,
                    event: Arc::new(event),
                })
            &&& !(payload is Entity) && !(payload is Block) && !(payload is Sound)
                ==> after.listeners == runtime.listeners
            &&& after.dispatch.lanes.next_item() is None
            &&& !after.dispatch.drainer_active
            &&& after.stalled.len() == 0
            &&& after.counters.lifecycle_revision == (if payload is Lifecycle {
                successor(runtime.counters.lifecycle_revision)
            } else {
                runtime.counters.lifecycle_revision
            })
        }),
{
    let event = Arc::new(runtime.writer.event(source, payload, at));
    let step = runtime.enqueued(source, payload, at);
    reveal(RuntimeView::dispatched);
    let queued = step.0;
    assert(step.1);
    assert(queued.dispatch.lanes.next_item()->0.event == event);
    assert(!queued.backpressured()) by {
        assert forall|i: int| 0 <= i < queued.subscribers.len() implies (
        #[trigger] queued.subscribers[i]).queue.parked.len() == 0 by {
            assert(idle(runtime.subscribers[i].queue));
        }
    }
    let popped = RuntimeView {
        dispatch: DispatchView { lanes: queued.dispatch.lanes.popped(), ..queued.dispatch },
        ..queued
    };
    let told = popped.broadcast(event);
    assert(popped.dispatch.lanes.ordinary =~= Seq::empty());
    assert(popped.dispatch.lanes.control =~= Seq::empty());
    assert(told.dispatch.lanes.next_item() is None);
    assert forall|i: int| 0 <= i < told.subscribers.len() implies (
    #[trigger] told.subscribers[i]).queue.parked.len() == 0 && told.subscribers[i].id
        == runtime.subscribers[i].id && told.subscribers[i].queue.lanes.next_item()->0.event
        == event && told.subscribers[i].queue.lanes.next_item() is Some by {
        assert(idle(runtime.subscribers[i].queue));
    }
    assert(!told.backpressured());
    reveal_with_fuel(RuntimeView::drained, 3);
    lemma_take_shrinks(queued.dispatch.lanes);
    assert(queued.drained() == told.drained());
    if 0 <= listener < runtime.listeners.len() && (payload is Entity || payload is Block
        || payload is Sound) {
        law_observations_reach_every_open_listener(popped, event, listener);
        let after = runtime.emitted(source, payload, at);
        assert(after.effects == told.effects);
        if listens(runtime.listeners[listener], event) {
            let i = choose|i: int|
                runtime.effects.len() <= i < told.effects.len() && #[trigger] told.effects[i] == (
                Effect::Deliver { subscription: runtime.listeners[listener].id, event });
            assert(after.effects[i] == told.effects[i]);
        }
    }
}

/// An ordinary event is emitted exactly while the runtime runs: no stop has
/// begun and the connection has not ended.
pub proof fn law_ordinary_events_end_with_the_run(
    runtime: RuntimeView,
    source: FactSource,
    payload: BackendEventPayload,
    at: UtcInstant,
)
    ensures
        runtime.flags.stopping || runtime.flags.disconnect_reported ==> runtime.emitted_if_running(
            source,
            payload,
            at,
        ) == runtime,
        !runtime.flags.stopping && !runtime.flags.disconnect_reported
            ==> runtime.emitted_if_running(source, payload, at) == runtime.emitted(
            source,
            payload,
            at,
        ),
{
}

/// A new subscriber and a new listener come behind the others, under a number
/// that is one higher than the last, and have read nothing yet.
pub proof fn law_newcomers_start_afresh(runtime: RuntimeView, epoch: u64)
    requires
        runtime.counters.last_subscriber < u64::MAX,
        runtime.counters.last_listener < u64::MAX,
    ensures
        ({
            let after = runtime.subscribed();
            let new = after.subscribers[after.subscribers.len() - 1];
            &&& after.subscribers.drop_last() == runtime.subscribers
            &&& new.id == runtime.counters.last_subscriber + 1
            &&& after.counters.last_subscriber == new.id
            &&& idle(new.queue)
            &&& after.listeners == runtime.listeners
        }),
        ({
            let after = runtime.listening(epoch);
            let new = after.listeners[after.listeners.len() - 1];
            &&& after.listeners.drop_last() == runtime.listeners
            &&& new.id == runtime.counters.last_listener + 1
            &&& after.counters.last_listener == new.id
            &&& new.epoch == epoch
            &&& !new.status.closed
            &&& new.status.pending_callbacks == 0
            &&& new.status.active_callbacks == 0
            &&& after.subscribers == runtime.subscribers
        }),
{
    assert(runtime.subscribed().subscribers.drop_last() =~= runtime.subscribers);
    assert(runtime.listening(epoch).listeners.drop_last() =~= runtime.listeners);
}

/// An event that is dispatched while nothing is on its way is what every
/// subscriber reads next, and then nothing is on its way to the queue any more.
pub proof fn law_a_dispatched_event_is_read_next(
    runtime: RuntimeView,
    event: Arc<BackendEventEnvelope>,
    subscriber: int,
)
    requires
        quiet(runtime),
        runtime.dispatch.lanes.next_sequence < u64::MAX,
        forall|i: int|
            0 <= i < runtime.subscribers.len() ==> (
            #[trigger] runtime.subscribers[i]).queue.lanes.next_sequence < u64::MAX - 1,
        0 <= subscriber < runtime.subscribers.len(),
    ensures
        ({
            let after = RuntimeView::followed(runtime.dispatched(event));
            &&& after.subscribers.len() == runtime.subscribers.len()
            &&& after.subscribers[subscriber].id == runtime.subscribers[subscriber].id
            &&& after.subscribers[subscriber].queue.lanes.next_item() matches Some(item)
                && item.event == event
            &&& after.dispatch.lanes.next_item() is None
            &&& !after.dispatch.drainer_active
            &&& after.stalled.len() == 0
        }),
{
    let step = runtime.dispatched(event);
    reveal(RuntimeView::dispatched);
    let queued = step.0;
    assert(step.1);
    assert(queued.dispatch.lanes.next_item()->0.event == event);
    assert(!queued.backpressured()) by {
        assert forall|i: int| 0 <= i < queued.subscribers.len() implies (
        #[trigger] queued.subscribers[i]).queue.parked.len() == 0 by {
            assert(idle(runtime.subscribers[i].queue));
        }
    }
    let popped = RuntimeView {
        dispatch: DispatchView { lanes: queued.dispatch.lanes.popped(), ..queued.dispatch },
        ..queued
    };
    let told = popped.broadcast(event);
    assert(popped.dispatch.lanes.ordinary =~= Seq::empty());
    assert(popped.dispatch.lanes.control =~= Seq::empty());
    assert(told.dispatch.lanes.next_item() is None);
    assert forall|i: int| 0 <= i < told.subscribers.len() implies (
    #[trigger] told.subscribers[i]).queue.parked.len() == 0 && told.subscribers[i].id
        == runtime.subscribers[i].id && told.subscribers[i].queue.lanes.next_item()->0.event
        == event && told.subscribers[i].queue.lanes.next_item() is Some by {
        assert(idle(runtime.subscribers[i].queue));
    }
    assert(!told.backpressured());
    reveal_with_fuel(RuntimeView::drained, 3);
    lemma_take_shrinks(queued.dispatch.lanes);
    assert(queued.drained() == told.drained());
}

proof fn lemma_slot(subscribers: Seq<SubscriberView>, id: u64, from: int, at: int)
    requires
        0 <= from <= at < subscribers.len(),
        subscribers[at].id == id,
        forall|i: int| from <= i < at ==> (#[trigger] subscribers[i]).id != id,
    ensures
        slot_from(subscribers, id, from) == at,
    decreases at - from,
{
    if from < at {
        lemma_slot(subscribers, id, from + 1, at);
    }
}

/// A subscriber is found by its number, and takes what comes next in its own
/// queue.
pub proof fn law_subscribers_take_from_their_own_queue(runtime: RuntimeView, id: u64, at: int)
    requires
        0 <= at < runtime.subscribers.len(),
        runtime.subscribers[at].id == id,
        forall|i: int| 0 <= i < at ==> (#[trigger] runtime.subscribers[i]).id != id,
    ensures
        runtime.subscribers[at].queue.lanes.next_item() matches Some(item) ==> runtime.next_for(id)
            == Some(item.event),
        runtime.subscribers[at].queue.lanes.next_item() is None ==> runtime.next_for(id) is None,
        runtime.received(id) == (RuntimeView {
            subscribers: runtime.subscribers.update(
                at,
                SubscriberView {
                    id,
                    queue: runtime.subscribers[at].queue.taken(),
                },
            ),
            ..runtime
        }).pumped(),
        runtime.unsubscribed(id) == (RuntimeView {
            subscribers: runtime.subscribers.remove(at),
            ..runtime
        }).pumped(),
{
    lemma_slot(runtime.subscribers, id, 0, at);
}

/// Whoever is no subscriber takes nothing and changes nothing.
pub proof fn law_strangers_take_nothing(runtime: RuntimeView, id: u64, from: int)
    requires
        0 <= from <= runtime.subscribers.len(),
        forall|i: int|
            from <= i < runtime.subscribers.len() ==> (#[trigger] runtime.subscribers[i]).id != id,
    ensures
        slot_from(runtime.subscribers, id, from) == runtime.subscribers.len(),
        from == 0 ==> runtime.next_for(id) is None,
        from == 0 ==> runtime.received(id) == runtime,
        from == 0 ==> runtime.unsubscribed(id) == runtime,
    decreases runtime.subscribers.len() - from,
{
    if from < runtime.subscribers.len() {
        law_strangers_take_nothing(runtime, id, from + 1);
    }
}

/// Once waiting for room is over, everyone who waits is woken and nothing that
/// comes later has to wait.
pub proof fn law_waiting_for_room_can_end(runtime: RuntimeView)
    ensures
        runtime.admission_ended() == (RuntimeView {
            flags: RuntimeFlags { dispatch_cancelled: true, ..runtime.flags },
            effects: runtime.effects.push(Effect::WakeDispatch),
            ..runtime
        }),
        runtime.admission_cancelled() == runtime.admission_ended().pumped(),
{
}

/// A listener is forgotten exactly when it is closed and has returned every
/// callback.
pub proof fn law_when_a_listener_is_forgotten(listener: ObservationSubscriber)
    ensures
        registered(listener) <==> !(listener.status.closed && listener.status.pending_callbacks == 0
            && listener.status.active_callbacks == 0),
{
}

/// A listener gets an observation exactly if that is of its epoch, it is open, and
/// one more callback can be counted.
pub proof fn law_who_gets_an_observation(
    listener: ObservationSubscriber,
    event: BackendEventEnvelope,
)
    ensures
        due(listener, event) <==> listener.epoch == event.connection_epoch
            && !listener.status.closed && listener.status.pending_callbacks < u64::MAX,
{
}

/// A change of a listener is a change of that listener only.
pub proof fn law_listeners_change_one_by_one(
    listeners: Seq<ObservationSubscriber>,
    id: u64,
    change: spec_fn(ObservationSubscriptionStatus) -> ObservationSubscriptionStatus,
    i: int,
)
    requires
        0 <= i < listeners.len(),
    ensures
        with_status(listeners, id, change).len() == listeners.len(),
        listeners[i].id != id ==> with_status(listeners, id, change)[i] == listeners[i],
        listeners[i].id == id ==> with_status(listeners, id, change)[i].status == change(
            listeners[i].status,
        ) && with_status(listeners, id, change)[i].id == id && with_status(
            listeners,
            id,
            change,
        )[i].epoch == listeners[i].epoch,
{
}

/// The listeners after a change of one of them: those that stay registered stay,
/// changed or not.
proof fn lemma_changed_listeners(
    runtime: RuntimeView,
    id: u64,
    change: spec_fn(ObservationSubscriptionStatus) -> ObservationSubscriptionStatus,
    i: int,
)
    requires
        0 <= i < runtime.listeners.len(),
    ensures
        registered(with_status(runtime.listeners, id, change)[i]) ==> runtime.listener_changed(
            id,
            change,
        ).listeners.contains(with_status(runtime.listeners, id, change)[i]),
        forall|k: int|
            0 <= k < runtime.listener_changed(id, change).listeners.len() ==> registered(
                #[trigger] runtime.listener_changed(id, change).listeners[k],
            ),
{
    broadcast use vstd::seq_lib::group_filter_ensures;

    let all = with_status(runtime.listeners, id, change);
    let pred = |l: ObservationSubscriber| registered(l);
    if registered(all[i]) {
        assert(pred(all[i]));
        assert(all.filter(pred).contains(all[i]));
    }
    assert forall|k: int| 0 <= k < all.filter(pred).len() implies registered(
        #[trigger] all.filter(pred)[k],
    ) by {
        assert(pred(all.filter(pred)[k]));
    }
}

/// A listener that is ended is closed. While callbacks of it are outstanding it is
/// remembered; the other listeners stay as they are.
pub proof fn law_an_ended_listener_is_closed(runtime: RuntimeView, id: u64, i: int)
    requires
        0 <= i < runtime.listeners.len(),
    ensures
        ({
            let listener = runtime.listeners[i];
            let after = runtime.listener_ended(id);
            &&& listener.id == id && (listener.status.pending_callbacks > 0
                || listener.status.active_callbacks > 0) ==> after.listeners.contains(
                ObservationSubscriber {
                    status: ObservationSubscriptionStatus { closed: true, ..listener.status },
                    ..listener
                },
            )
            &&& listener.id != id && !listener.status.closed ==> after.listeners.contains(listener)
            &&& after == (RuntimeView { listeners: after.listeners, ..runtime })
        }),
{
    lemma_changed_listeners(
        runtime,
        id,
        |s: ObservationSubscriptionStatus| ObservationSubscriptionStatus { closed: true, ..s },
        i,
    );
}

/// A callback that begins is one less that is awaited and one more that runs; for
/// a closed listener it does not run.
pub proof fn law_a_callback_begins(runtime: RuntimeView, id: u64, i: int)
    requires
        0 <= i < runtime.listeners.len(),
        runtime.listeners[i].id == id,
        runtime.listeners[i].status.pending_callbacks > 0,
        runtime.listeners[i].status.active_callbacks < u64::MAX,
    ensures
        ({
            let listener = runtime.listeners[i];
            let status = listener.status;
            let after = runtime.listener_begun(id);
            &&& !status.closed ==> runtime.listener_startable(id) && after.listeners.contains(
                ObservationSubscriber {
                    status: ObservationSubscriptionStatus {
                        pending_callbacks: (status.pending_callbacks - 1) as u64,
                        active_callbacks: (status.active_callbacks + 1) as u64,
                        ..status
                    },
                    ..listener
                },
            )
            &&& status.closed && status.pending_callbacks > 1 ==> after.listeners.contains(
                ObservationSubscriber {
                    status: ObservationSubscriptionStatus {
                        pending_callbacks: (status.pending_callbacks - 1) as u64,
                        ..status
                    },
                    ..listener
                },
            )
        }),
{
    lemma_changed_listeners(runtime, id, |s: ObservationSubscriptionStatus| s.started(), i);
    if !runtime.listeners[i].status.closed {
        assert(runtime.listeners[i].id == id && runtime.listeners[i].status.startable());
    }
}

/// A callback that ends is one less that runs. A closed listener is forgotten with
/// its last one.
pub proof fn law_a_callback_ends(runtime: RuntimeView, id: u64, i: int)
    requires
        0 <= i < runtime.listeners.len(),
        runtime.listeners[i].id == id,
        runtime.listeners[i].status.active_callbacks > 0,
    ensures
        ({
            let listener = runtime.listeners[i];
            let status = listener.status;
            let after = runtime.listener_rested(id);
            let rested = ObservationSubscriber {
                status: ObservationSubscriptionStatus {
                    active_callbacks: (status.active_callbacks - 1) as u64,
                    ..status
                },
                ..listener
            };
            after.listeners.contains(rested) <==> !status.closed || status.active_callbacks > 1
                || status.pending_callbacks > 0
        }),
{
    lemma_changed_listeners(runtime, id, |s: ObservationSubscriptionStatus| s.finished(), i);
}

/// No callback of a listener begins if it is closed or gone; whoever closes it
/// waits exactly for the callbacks of others.
pub proof fn law_what_closing_waits_for(runtime: RuntimeView, id: u64, own_callbacks: u64, i: int)
    ensures
        runtime.listener_closed(id) ==> !runtime.listener_startable(id),
        0 <= i < runtime.listeners.len() && runtime.listeners[i].id == id
            && runtime.listener_closed(id) ==> runtime.listeners[i].status.closed,
        0 <= i < runtime.listeners.len() && runtime.listeners[i].id == id
            && !runtime.listener_busy(id, own_callbacks)
            ==> runtime.listeners[i].status.active_callbacks <= own_callbacks,
        0 <= i < runtime.listeners.len() && runtime.listeners[i].id == id
            && runtime.listeners[i].status.active_callbacks > own_callbacks
            ==> runtime.listener_busy(id, own_callbacks),
        (forall|k: int|
            0 <= k < runtime.listeners.len() ==> (#[trigger] runtime.listeners[k]).id != id)
            ==> runtime.listener_closed(id) && !runtime.listener_busy(id, own_callbacks),
{
}

} // verus!
