//! The runtime's own dispatch queue, its subscriber queues and callback leases.

use std::sync::Arc;

use vstd::prelude::*;

use crate::contract::BackendEventEnvelope;
use crate::lanes::{LaneItem, LanePending, LaneVerdict, Lanes, LanesView, MarkerScope};

verus! {

/// How an attempt to enqueue ended. An accepted event says whether the caller
/// has become the one drainer.
#[derive(Clone, Copy, Debug, PartialEq, Eq, Structural)]
pub enum RuntimeDispatchAdmission {
    Accepted(bool),
    Wait,
    Cancelled,
}

/// The dispatch queue as a value.
#[verifier::ext_equal]
pub ghost struct DispatchView {
    pub lanes: LanesView,
    pub drainer_active: bool,
}

impl DispatchView {
    pub open spec fn admission(
        self,
        pending: LanePending,
        cancelled: bool,
    ) -> RuntimeDispatchAdmission {
        if self.lanes.next_admission != pending.sequence {
            if cancelled {
                RuntimeDispatchAdmission::Cancelled
            } else {
                RuntimeDispatchAdmission::Wait
            }
        } else {
            match self.lanes.verdict(pending, cancelled) {
                LaneVerdict::Stored => RuntimeDispatchAdmission::Accepted(!self.drainer_active),
                LaneVerdict::Counted => RuntimeDispatchAdmission::Accepted(false),
                LaneVerdict::Wait => RuntimeDispatchAdmission::Wait,
                LaneVerdict::Cancelled => RuntimeDispatchAdmission::Cancelled,
            }
        }
    }

    pub open spec fn enqueued(self, pending: LanePending, cancelled: bool) -> DispatchView {
        if self.lanes.next_admission != pending.sequence {
            if cancelled {
                DispatchView { lanes: self.lanes.advanced(), ..self }
            } else {
                self
            }
        } else {
            DispatchView {
                lanes: self.lanes.admitted(pending, cancelled),
                drainer_active: self.drainer_active || self.lanes.verdict(pending, cancelled)
                    == LaneVerdict::Stored,
            }
        }
    }
}

/// The finite queue in front of the subscribers, with its one drainer.
pub struct EventDispatchState {
    pub lanes: Lanes,
    pub drainer_active: bool,
}

impl View for EventDispatchState {
    type V = DispatchView;

    open spec fn view(&self) -> DispatchView {
        DispatchView { lanes: self.lanes@, drainer_active: self.drainer_active }
    }
}

impl EventDispatchState {
    pub fn new() -> (dispatch: Self)
        ensures
            dispatch@ == (DispatchView {
                lanes: LanesView::empty(MarkerScope::Dispatch),
                drainer_active: false,
            }),
            dispatch@.lanes.bounded(),
    {
        EventDispatchState { lanes: Lanes::new(MarkerScope::Dispatch), drainer_active: false }
    }

    /// Admits an event that holds its place, and elects exactly one drainer.
    pub fn enqueue(&mut self, pending: &LanePending, cancelled: bool) -> (admission:
        RuntimeDispatchAdmission)
        requires
            old(self)@.lanes.bounded(),
        ensures
            admission == old(self)@.admission(*pending, cancelled),
            final(self)@ == old(self)@.enqueued(*pending, cancelled),
            final(self)@.lanes.bounded(),
    {
        if self.lanes.next_admission != pending.sequence {
            if cancelled {
                self.lanes.advance_admission();
                return RuntimeDispatchAdmission::Cancelled;
            }
            return RuntimeDispatchAdmission::Wait;
        }
        match self.lanes.offer(pending, cancelled) {
            LaneVerdict::Stored => RuntimeDispatchAdmission::Accepted(self.activate_drainer()),
            LaneVerdict::Counted => RuntimeDispatchAdmission::Accepted(false),
            LaneVerdict::Wait => RuntimeDispatchAdmission::Wait,
            LaneVerdict::Cancelled => RuntimeDispatchAdmission::Cancelled,
        }
    }

    /// Makes the caller the drainer, unless there is one.
    fn activate_drainer(&mut self) -> (elected: bool)
        ensures
            elected == !old(self).drainer_active,
            final(self)@ == (DispatchView { drainer_active: true, ..old(self)@ }),
    {
        if self.drainer_active {
            false
        } else {
            self.drainer_active = true;
            true
        }
    }
}

/// At most one drainer is elected until it has stopped.
pub proof fn law_one_drainer(
    dispatch: DispatchView,
    first: LanePending,
    second: LanePending,
    cancelled: bool,
)
    requires
        dispatch.admission(first, cancelled) == RuntimeDispatchAdmission::Accepted(true),
    ensures
        dispatch.enqueued(first, cancelled).drainer_active,
        dispatch.enqueued(first, cancelled).admission(second, cancelled)
            != RuntimeDispatchAdmission::Accepted(true),
{
}

/// Whoever stores an event while nobody drains is told to drain.
pub proof fn law_stored_events_get_a_drainer(
    dispatch: DispatchView,
    pending: LanePending,
    cancelled: bool,
)
    requires
        pending.sequence == dispatch.lanes.next_admission,
        dispatch.lanes.verdict(pending, cancelled) == LaneVerdict::Stored,
    ensures
        dispatch.enqueued(pending, cancelled).drainer_active,
        dispatch.admission(pending, cancelled) == RuntimeDispatchAdmission::Accepted(true)
            || dispatch.drainer_active,
{
}

/// How an attempt to publish to a subscriber ended.
#[derive(Clone, Copy, Debug, PartialEq, Eq, Structural)]
pub enum BrokerAdmission {
    Accepted,
    Wait,
    Cancelled,
}

/// One subscriber's queue as a value.
#[verifier::ext_equal]
pub ghost struct BrokerView {
    pub lanes: LanesView,
    /// The events that wait for room, in their order.
    pub parked: Seq<LanePending>,
}

impl BrokerView {
    pub open spec fn empty() -> BrokerView {
        BrokerView { lanes: LanesView::empty(MarkerScope::Broker), parked: Seq::empty() }
    }

    pub open spec fn admission(self, pending: LanePending, cancelled: bool) -> BrokerAdmission {
        if self.lanes.next_admission != pending.sequence {
            if cancelled {
                BrokerAdmission::Cancelled
            } else {
                BrokerAdmission::Wait
            }
        } else {
            match self.lanes.verdict(pending, cancelled) {
                LaneVerdict::Stored => BrokerAdmission::Accepted,
                LaneVerdict::Counted => BrokerAdmission::Accepted,
                LaneVerdict::Wait => BrokerAdmission::Wait,
                LaneVerdict::Cancelled => BrokerAdmission::Cancelled,
            }
        }
    }

    /// The queue after an attempt; an event that has to wait is parked behind
    /// those that wait already.
    pub open spec fn tried(self, pending: LanePending, cancelled: bool) -> BrokerView {
        let lanes = if self.lanes.next_admission != pending.sequence {
            if cancelled {
                self.lanes.advanced()
            } else {
                self.lanes
            }
        } else {
            self.lanes.admitted(pending, cancelled)
        };
        BrokerView {
            lanes,
            parked: if self.admission(pending, cancelled) == BrokerAdmission::Wait {
                self.parked.push(pending)
            } else {
                self.parked
            },
        }
    }

    /// The next event as it gets its place.
    pub open spec fn next_pending(self, event: Arc<BackendEventEnvelope>) -> LanePending {
        LanePending { sequence: self.lanes.next_sequence, session_id: 0, event }
    }

    /// The queue after it gave out a place.
    pub open spec fn ticketed(self) -> BrokerView {
        BrokerView {
            lanes: LanesView {
                next_sequence: crate::lanes::successor(self.lanes.next_sequence),
                ..self.lanes
            },
            parked: self.parked,
        }
    }

    /// The queue after an event was published to it.
    pub open spec fn published(
        self,
        event: Arc<BackendEventEnvelope>,
        cancelled: bool,
    ) -> BrokerView {
        self.ticketed().tried(self.next_pending(event), cancelled)
    }

    /// The queue after a number of events were tried, one after another.
    pub open spec fn tried_all(self, waiting: Seq<LanePending>, cancelled: bool) -> BrokerView
        decreases waiting.len(),
    {
        if waiting.len() == 0 {
            self
        } else {
            self.tried_all(waiting.drop_last(), cancelled).tried(waiting.last(), cancelled)
        }
    }

    /// The queue with nobody waiting.
    pub open spec fn unparked(self) -> BrokerView {
        BrokerView { parked: Seq::empty(), ..self }
    }

    /// The queue after its parked events were tried again, in their order.
    pub open spec fn resumed(self, cancelled: bool) -> BrokerView {
        self.unparked().tried_all(self.parked, cancelled)
    }

    pub open spec fn taken(self) -> BrokerView {
        BrokerView { lanes: self.lanes.popped(), ..self }
    }
}

/// A finite queue between the runtime and one subscriber.
pub struct RuntimeEventQueue {
    pub lanes: Lanes,
    pub parked: Vec<LanePending>,
}

impl View for RuntimeEventQueue {
    type V = BrokerView;

    open spec fn view(&self) -> BrokerView {
        BrokerView { lanes: self.lanes@, parked: self.parked@ }
    }
}

impl RuntimeEventQueue {
    pub fn new() -> (queue: Self)
        ensures
            queue@ == BrokerView::empty(),
            queue@.lanes.bounded(),
    {
        RuntimeEventQueue { lanes: Lanes::new(MarkerScope::Broker), parked: Vec::new() }
    }

    fn attempt(&mut self, pending: LanePending, cancelled: bool) -> (admission: BrokerAdmission)
        requires
            old(self)@.lanes.bounded(),
        ensures
            admission == old(self)@.admission(pending, cancelled),
            final(self)@ == old(self)@.tried(pending, cancelled),
            final(self)@.lanes.bounded(),
    {
        let admission = if self.lanes.next_admission != pending.sequence {
            if cancelled {
                self.lanes.advance_admission();
                BrokerAdmission::Cancelled
            } else {
                BrokerAdmission::Wait
            }
        } else {
            match self.lanes.offer(&pending, cancelled) {
                LaneVerdict::Stored => BrokerAdmission::Accepted,
                LaneVerdict::Counted => BrokerAdmission::Accepted,
                LaneVerdict::Wait => BrokerAdmission::Wait,
                LaneVerdict::Cancelled => BrokerAdmission::Cancelled,
            }
        };
        match admission {
            BrokerAdmission::Wait => {
                self.parked.push(pending);
            },
            _ => {},
        }
        admission
    }

    /// Publishes one event. An event that finds no room, or that others wait
    /// before, is parked; it keeps its place and is tried again by `resume`.
    pub fn publish(&mut self, event: Arc<BackendEventEnvelope>, cancelled: bool) -> (admission:
        BrokerAdmission)
        requires
            old(self)@.lanes.bounded(),
        ensures
            admission == old(self)@.ticketed().admission(
                old(self)@.next_pending(event),
                cancelled,
            ),
            final(self)@ == old(self)@.published(event, cancelled),
            final(self)@.lanes.bounded(),
    {
        let pending = self.lanes.ticket(0, event);
        self.attempt(pending, cancelled)
    }

    /// Tries the parked events again, in their order, and tells what became of
    /// each.
    pub fn resume(&mut self, cancelled: bool) -> (admissions: Vec<BrokerAdmission>)
        requires
            old(self)@.lanes.bounded(),
        ensures
            admissions@.len() == old(self)@.parked.len(),
            forall|i: int|
                0 <= i < admissions@.len() ==> #[trigger] admissions@[i]
                    == old(self)@.unparked().tried_all(
                    old(self)@.parked.take(i),
                    cancelled,
                ).admission(old(self)@.parked[i], cancelled),
            final(self)@ == old(self)@.resumed(cancelled),
            final(self)@.lanes.bounded(),
    {
        let ghost before = self@;
        let mut waiting: Vec<LanePending> = Vec::new();
        core::mem::swap(&mut waiting, &mut self.parked);
        let mut admissions: Vec<BrokerAdmission> = Vec::new();
        let mut i: usize = 0;
        assert(self@ == before.unparked());
        while i < waiting.len()
            invariant
                i <= waiting@.len(),
                waiting@ == before.parked,
                self@.lanes.bounded(),
                self@ == before.unparked().tried_all(waiting@.take(i as int), cancelled),
                admissions@.len() == i,
                forall|k: int|
                    0 <= k < i ==> #[trigger] admissions@[k] == before.unparked().tried_all(
                        before.parked.take(k),
                        cancelled,
                    ).admission(before.parked[k], cancelled),
            decreases waiting@.len() - i,
        {
            let pending = waiting[i].clone();
            proof {
                assert(waiting@.take(i + 1).drop_last() =~= waiting@.take(i as int));
                assert(waiting@.take(i + 1).last() == pending);
            }
            admissions.push(self.attempt(pending, cancelled));
            i = i + 1;
        }
        assert(waiting@.take(i as int) =~= waiting@);
        admissions
    }

    /// Takes the next event.
    pub fn pop(&mut self) -> (event: Option<Arc<BackendEventEnvelope>>)
        requires
            old(self)@.lanes.bounded(),
        ensures
            event == (match old(self)@.lanes.next_item() {
                Some(item) => Some(item.event),
                None => None,
            }),
            final(self)@ == old(self)@.taken(),
            final(self)@.lanes.bounded(),
    {
        match self.lanes.pop_next() {
            Some(item) => Some(item.event),
            None => None,
        }
    }

    /// How many events and markers the queue holds.
    pub fn queued_count(&self) -> (n: usize)
        requires
            self@.lanes.bounded(),
        ensures
            n == self@.lanes.ordinary.len() + self@.lanes.control.len()
                + self@.lanes.overflow.len() + (if self@.lanes.terminal is Some {
                1int
            } else {
                0int
            }),
    {
        let (ordinary, control, overflow, terminal) = self.lanes.queued_counts();
        ordinary + control + overflow + terminal
    }
}

proof fn lemma_cancelled_tries_park_nothing(queue: BrokerView, waiting: Seq<LanePending>)
    ensures
        queue.tried_all(waiting, true).parked == queue.parked,
    decreases waiting.len(),
{
    if waiting.len() > 0 {
        lemma_cancelled_tries_park_nothing(queue, waiting.drop_last());
    }
}

/// Cancelling releases the parked events at once, whatever they are.
pub proof fn law_cancellation_releases_the_parked_event(queue: BrokerView)
    ensures
        queue.resumed(true).parked.len() == 0,
{
    lemma_cancelled_tries_park_nothing(queue.unparked(), queue.parked);
}

/// No event that waits is lost: whatever is published meanwhile, those that wait
/// stay as they are, and the new one can only come behind them.
pub proof fn law_waiting_events_stay(
    queue: BrokerView,
    event: Arc<BackendEventEnvelope>,
    cancelled: bool,
)
    ensures
        queue.published(event, cancelled).parked == (if queue.ticketed().admission(
            queue.next_pending(event),
            cancelled,
        ) == BrokerAdmission::Wait {
            queue.parked.push(queue.next_pending(event))
        } else {
            queue.parked
        }),
        queue.parked.is_prefix_of(queue.published(event, cancelled).parked),
{
}

/// The callbacks of one observation subscription, as they are leased out.
#[derive(Clone, Copy, Debug, PartialEq, Eq, Structural)]
pub struct ObservationSubscriptionStatus {
    pub closed: bool,
    pub pending_callbacks: u64,
    pub active_callbacks: u64,
}

impl ObservationSubscriptionStatus {
    pub open spec fn fresh() -> ObservationSubscriptionStatus {
        ObservationSubscriptionStatus { closed: false, pending_callbacks: 0, active_callbacks: 0 }
    }

    pub fn new() -> (status: Self)
        ensures
            status == Self::fresh(),
    {
        ObservationSubscriptionStatus { closed: false, pending_callbacks: 0, active_callbacks: 0 }
    }

    /// A callback can be reserved: the subscription is open and the
    /// reservations can be counted.
    pub open spec fn reservable(self) -> bool {
        !self.closed && self.pending_callbacks < u64::MAX
    }

    pub open spec fn reserved(self) -> ObservationSubscriptionStatus {
        if !self.reservable() {
            self
        } else {
            ObservationSubscriptionStatus {
                pending_callbacks: (self.pending_callbacks + 1) as u64,
                ..self
            }
        }
    }

    /// Reserves a callback; a closed subscription refuses.
    pub fn reserve_callback(&mut self) -> (reserved: bool)
        ensures
            reserved == old(self).reservable(),
            *final(self) == old(self).reserved(),
    {
        if self.closed || self.pending_callbacks == u64::MAX {
            return false;
        }
        self.pending_callbacks = self.pending_callbacks + 1;
        true
    }

    /// A reserved callback may run: the subscription is open and the running
    /// callbacks can be counted.
    pub open spec fn startable(self) -> bool {
        !self.closed && self.active_callbacks < u64::MAX
    }

    pub open spec fn started(self) -> ObservationSubscriptionStatus {
        let pending_callbacks = if self.pending_callbacks > 0 {
            (self.pending_callbacks - 1) as u64
        } else {
            0
        };
        if !self.startable() {
            ObservationSubscriptionStatus { pending_callbacks, ..self }
        } else {
            ObservationSubscriptionStatus {
                pending_callbacks,
                active_callbacks: (self.active_callbacks + 1) as u64,
                ..self
            }
        }
    }

    /// Turns a reservation into a running callback, unless the subscription
    /// has been closed in between.
    pub fn start_callback(&mut self) -> (started: bool)
        ensures
            started == old(self).startable(),
            *final(self) == old(self).started(),
    {
        if self.pending_callbacks > 0 {
            self.pending_callbacks = self.pending_callbacks - 1;
        }
        if self.closed || self.active_callbacks == u64::MAX {
            return false;
        }
        self.active_callbacks = self.active_callbacks + 1;
        true
    }

    pub open spec fn finished(self) -> ObservationSubscriptionStatus {
        ObservationSubscriptionStatus {
            active_callbacks: if self.active_callbacks > 0 {
                (self.active_callbacks - 1) as u64
            } else {
                0
            },
            ..self
        }
    }

    /// Ends a running callback and tells whether nothing is outstanding.
    pub fn finish_callback(&mut self) -> (quiescent: bool)
        ensures
            *final(self) == old(self).finished(),
            quiescent == (final(self).active_callbacks == 0 && final(self).pending_callbacks
                == 0),
    {
        if self.active_callbacks > 0 {
            self.active_callbacks = self.active_callbacks - 1;
        }
        self.active_callbacks == 0 && self.pending_callbacks == 0
    }

    /// Closes the subscription: nothing is reserved or started any more.
    pub fn close(&mut self)
        ensures
            *final(self) == (ObservationSubscriptionStatus { closed: true, ..*old(self) }),
    {
        self.closed = true;
    }

    pub fn is_closed(&self) -> (r: bool)
        ensures
            r == self.closed,
    {
        self.closed
    }

    /// More callbacks run than this many.
    pub open spec fn busy_besides(self, own_callbacks: u64) -> bool {
        self.active_callbacks > own_callbacks
    }

    /// Whoever closes has to wait while more callbacks run than it runs itself.
    /// Reservations are not waited for: a closed subscription skips them.
    pub fn must_wait(&self, own_callbacks: u64) -> (r: bool)
        ensures
            r == self.busy_besides(own_callbacks),
    {
        self.active_callbacks > own_callbacks
    }
}

/// Once closed, a subscription starts no callback, and the running ones only end.
pub proof fn law_closed_subscription_winds_down(status: ObservationSubscriptionStatus)
    requires
        status.closed,
    ensures
        status.reserved() == status,
        status.started().active_callbacks == status.active_callbacks,
        status.started().closed,
        status.finished().active_callbacks <= status.active_callbacks,
        status.finished().closed,
{
}

/// A callback that is reserved, started and finished leaves the counts as they were.
pub proof fn law_callback_lease_is_returned(status: ObservationSubscriptionStatus)
    requires
        !status.closed,
        status.pending_callbacks < u64::MAX,
        status.active_callbacks < u64::MAX,
    ensures
        status.reserved().started().finished() == status,
{
}

/// A queue that holds nothing, and in which nobody waits.
pub open spec fn idle(queue: BrokerView) -> bool {
    &&& queue.lanes.ordinary.len() == 0
    &&& queue.lanes.control.len() == 0
    &&& queue.lanes.overflow.len() == 0
    &&& queue.lanes.terminal is None
    &&& queue.parked.len() == 0
    &&& queue.lanes.next_admission == queue.lanes.next_sequence
}

/// Whatever is published to a subscriber that has nothing to read yet is what
/// the subscriber reads next, and then what was published after it.
pub proof fn law_subscribers_read_what_was_published(
    queue: BrokerView,
    first: Arc<BackendEventEnvelope>,
    second: Arc<BackendEventEnvelope>,
    cancelled: bool,
)
    requires
        idle(queue),
        queue.lanes.next_sequence < u64::MAX - 1,
        !(first.payload is Lifecycle && second.payload is Lifecycle),
    ensures
        ({
            let once = queue.published(first, cancelled);
            let twice = once.published(second, cancelled);
            &&& queue.lanes.next_item() is None
            &&& once.lanes.next_item() matches Some(item) && item.event == first
            &&& idle(once.taken())
            &&& twice.lanes.next_item() matches Some(item) && item.event == first
            &&& twice.taken().lanes.next_item() matches Some(item) && item.event == second
            &&& idle(twice.taken().taken())
        }),
{
    let once = queue.published(first, cancelled);
    let twice = once.published(second, cancelled);
    assert(once.taken().lanes.ordinary =~= Seq::empty());
    assert(once.taken().lanes.control =~= Seq::empty());
    let rest = twice.taken();
    assert(twice.lanes.ordinary.len() + twice.lanes.control.len() + (if twice.lanes.terminal is Some {
        1int
    } else {
        0int
    }) == 2);
    assert(rest.taken().lanes.ordinary =~= Seq::empty());
    assert(rest.taken().lanes.control =~= Seq::empty());
}

/// What comes out of its turn waits, or is given up once waiting is over.
pub proof fn law_nobody_jumps_the_queue(
    queue: BrokerView,
    dispatch: DispatchView,
    pending: LanePending,
    cancelled: bool,
)
    ensures
        queue.lanes.next_admission != pending.sequence ==> queue.admission(pending, cancelled) == (
        if cancelled {
            BrokerAdmission::Cancelled
        } else {
            BrokerAdmission::Wait
        }) && (!cancelled ==> queue.tried(pending, cancelled).lanes == queue.lanes),
        dispatch.lanes.next_admission != pending.sequence ==> dispatch.admission(
            pending,
            cancelled,
        ) == (if cancelled {
            RuntimeDispatchAdmission::Cancelled
        } else {
            RuntimeDispatchAdmission::Wait
        }) && (!cancelled ==> dispatch.enqueued(pending, cancelled) == dispatch),
{
}

/// A reservation, a start and an end are each counted once, and a closed
/// subscription neither reserves nor starts anything.
pub proof fn law_callbacks_are_counted(status: ObservationSubscriptionStatus)
    requires
        status.pending_callbacks < u64::MAX,
        status.active_callbacks < u64::MAX,
    ensures
        status.reservable() == !status.closed,
        status.startable() == !status.closed,
        status.reserved().pending_callbacks == status.pending_callbacks + (if status.closed {
            0int
        } else {
            1
        }),
        status.reserved().active_callbacks == status.active_callbacks,
        status.pending_callbacks > 0 ==> status.started().pending_callbacks
            == status.pending_callbacks - 1,
        status.started().active_callbacks == status.active_callbacks + (if status.closed {
            0int
        } else {
            1
        }),
        status.active_callbacks > 0 ==> status.finished().active_callbacks
            == status.active_callbacks - 1,
        status.finished().pending_callbacks == status.pending_callbacks,
        status.reserved().closed == status.closed,
        status.started().closed == status.closed,
        status.finished().closed == status.closed,
{
}

/// Taking an event leaves those that wait alone; trying them again starts with the
/// one that has waited longest, and goes on with the others.
pub proof fn law_the_longest_wait_goes_first(
    queue: BrokerView,
    pending: LanePending,
    others: Seq<LanePending>,
    cancelled: bool,
)
    requires
        queue.parked == others.push(pending),
    ensures
        queue.taken().parked == queue.parked,
        queue.taken().lanes == queue.lanes.popped(),
        queue.resumed(cancelled) == queue.unparked().tried_all(others, cancelled).tried(
            pending,
            cancelled,
        ),
        queue.unparked().parked.len() == 0,
        queue.unparked().lanes == queue.lanes,
{
    assert(queue.parked.drop_last() =~= others);
}

/// A fresh queue of a subscriber is empty, and nobody waits; its losses are its
/// own.
pub proof fn law_a_fresh_queue_is_empty(queue: BrokerView)
    requires
        queue == BrokerView::empty(),
    ensures
        idle(queue),
        queue.parked.len() == 0,
        queue.lanes.ordinary.len() == 0,
        queue.lanes.control.len() == 0,
        queue.lanes.overflow.len() == 0,
        queue.lanes.terminal is None,
        queue.lanes.scope == MarkerScope::Broker,
{
}

/// Closing waits for running callbacks besides the caller's own, not for those that
/// are only reserved; once those have ended it need not wait any more.
pub proof fn law_what_closing_a_subscription_waits_for(
    status: ObservationSubscriptionStatus,
    own_callbacks: u64,
)
    ensures
        status.busy_besides(own_callbacks) <==> status.active_callbacks - own_callbacks > 0,
        status.active_callbacks == own_callbacks + 1 ==> status.busy_besides(own_callbacks)
            && !status.finished().busy_besides(own_callbacks),
        status.active_callbacks == 0 ==> !status.busy_besides(own_callbacks),
{
}

} // verus!
