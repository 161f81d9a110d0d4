//! The bounded queue in front of the public listeners, and their callbacks.
//!
//! One dispatcher takes events from the bridge and calls the listeners. A
//! callback may block and call back into the backend, so the bridge never grows:
//! it counts what it loses, and what it must not lose waits.

use std::sync::Arc;

use vstd::prelude::*;

use crate::contract::BackendEventEnvelope;
use crate::lanes::{successor, LaneItem, LanePending, LaneVerdict, Lanes, LanesView, MarkerScope};

verus! {

/// How long whoever unsubscribes waits for a running callback, in milliseconds.
pub const UNSUBSCRIBE_WAIT_MS: u64 = 2000;

/// How an attempt to enqueue ended.
#[derive(Clone, Copy, Debug, PartialEq, Eq, Structural)]
pub enum BridgeAdmission {
    /// The event is queued, or counted as lost.
    Accepted,
    /// There is no room, or it is not this event's turn.
    Wait,
    /// The bridge is closed, or waiting was given up.
    Refused,
}

/// What the dispatcher finds.
#[derive(Debug, PartialEq, Eq)]
pub enum BridgeNext {
    Item(LaneItem),
    /// Nothing is there yet.
    Wait,
    /// The bridge is closed and empty.
    Ended,
}

/// The bridge as a value.
#[verifier::ext_equal]
pub ghost struct BridgeView {
    pub lanes: LanesView,
    pub closed: bool,
}

impl BridgeView {
    pub open spec fn empty() -> BridgeView {
        BridgeView { lanes: LanesView::empty(MarkerScope::Bridge), closed: false }
    }

    /// Someone who holds a place waits for the turn, however long it takes,
    /// unless the bridge closes; only for room can the waiting be given up.
    pub open spec fn admission(self, pending: LanePending, cancelled: bool) -> BridgeAdmission {
        if self.closed {
            BridgeAdmission::Refused
        } else if self.lanes.next_admission != pending.sequence {
            BridgeAdmission::Wait
        } else {
            match self.lanes.verdict(pending, cancelled) {
                LaneVerdict::Stored => BridgeAdmission::Accepted,
                LaneVerdict::Counted => BridgeAdmission::Accepted,
                LaneVerdict::Wait => BridgeAdmission::Wait,
                LaneVerdict::Cancelled => BridgeAdmission::Refused,
            }
        }
    }

    pub open spec fn offered(self, pending: LanePending, cancelled: bool) -> BridgeView {
        if self.closed || self.lanes.next_admission != pending.sequence {
            self
        } else {
            BridgeView { lanes: self.lanes.admitted(pending, cancelled), ..self }
        }
    }

    pub open spec fn ticketed(self) -> BridgeView {
        BridgeView {
            lanes: LanesView { next_sequence: successor(self.lanes.next_sequence), ..self.lanes },
            ..self
        }
    }

    /// The place that the next event gets.
    pub open spec fn place(self, session_id: u64, event: Arc<BackendEventEnvelope>) -> LanePending {
        LanePending { sequence: self.lanes.next_sequence, session_id, event }
    }

    pub open spec fn next(self) -> BridgeNext {
        match self.lanes.next_item() {
            Some(item) => BridgeNext::Item(item),
            None => if self.closed {
                BridgeNext::Ended
            } else {
                BridgeNext::Wait
            },
        }
    }

    pub open spec fn taken(self) -> BridgeView {
        BridgeView { lanes: self.lanes.popped(), ..self }
    }
}

/// The bounded queue in front of the public listeners.
pub struct EventBridge {
    pub lanes: Lanes,
    pub closed: bool,
}

impl View for EventBridge {
    type V = BridgeView;

    open spec fn view(&self) -> BridgeView {
        BridgeView { lanes: self.lanes@, closed: self.closed }
    }
}

impl EventBridge {
    pub fn new() -> (bridge: Self)
        ensures
            bridge@ == BridgeView::empty(),
            bridge@.lanes.bounded(),
    {
        EventBridge { lanes: Lanes::new(MarkerScope::Bridge), closed: false }
    }

    /// Gives an event its place in the order of admission.
    pub fn ticket(&mut self, session_id: u64, event: Arc<BackendEventEnvelope>) -> (pending:
        LanePending)
        requires
            old(self)@.lanes.bounded(),
        ensures
            pending == old(self)@.place(session_id, event),
            final(self)@ == old(self)@.ticketed(),
            final(self)@.lanes.bounded(),
    {
        self.lanes.ticket(session_id, event)
    }

    /// Tries to place an event that holds a place in the order.
    pub fn offer(&mut self, pending: &LanePending, cancelled: bool) -> (admission: BridgeAdmission)
        requires
            old(self)@.lanes.bounded(),
        ensures
            admission == old(self)@.admission(*pending, cancelled),
            final(self)@ == old(self)@.offered(*pending, cancelled),
            final(self)@.lanes.bounded(),
    {
        if self.closed {
            return BridgeAdmission::Refused;
        }
        if self.lanes.next_admission != pending.sequence {
            return BridgeAdmission::Wait;
        }
        match self.lanes.offer(pending, cancelled) {
            LaneVerdict::Stored => BridgeAdmission::Accepted,
            LaneVerdict::Counted => BridgeAdmission::Accepted,
            LaneVerdict::Wait => BridgeAdmission::Wait,
            LaneVerdict::Cancelled => BridgeAdmission::Refused,
        }
    }

    /// Enqueues an event and tries to place it at once.
    pub fn enqueue(
        &mut self,
        session_id: u64,
        event: Arc<BackendEventEnvelope>,
        cancelled: bool,
    ) -> (r: (LanePending, BridgeAdmission))
        requires
            old(self)@.lanes.bounded(),
        ensures
            r.0 == old(self)@.place(session_id, event),
            r.1 == old(self)@.ticketed().admission(r.0, cancelled),
            final(self)@ == old(self)@.ticketed().offered(r.0, cancelled),
            final(self)@.lanes.bounded(),
    {
        let pending = self.ticket(session_id, event);
        let admission = self.offer(&pending, cancelled);
        (pending, admission)
    }

    /// Takes the next event for the dispatcher.
    pub fn next(&mut self) -> (next: BridgeNext)
        requires
            old(self)@.lanes.bounded(),
        ensures
            next == old(self)@.next(),
            final(self)@ == old(self)@.taken(),
            final(self)@.lanes.bounded(),
    {
        match self.lanes.pop_next() {
            Some(item) => BridgeNext::Item(item),
            None => if self.closed {
                BridgeNext::Ended
            } else {
                BridgeNext::Wait
            },
        }
    }

    /// Closes the bridge: what is queued can still be taken.
    pub fn close(&mut self)
        requires
            old(self)@.lanes.bounded(),
        ensures
            final(self)@ == (BridgeView { closed: true, ..old(self)@ }),
            final(self)@.lanes.bounded(),
    {
        self.closed = true;
    }

    /// How much each lane holds: ordinary, control, loss segments, terminal.
    pub fn queued_counts(&self) -> (r: (usize, usize, usize, usize))
        ensures
            r.0 == self@.lanes.ordinary.len(),
            r.1 == self@.lanes.control.len(),
            r.2 == self@.lanes.overflow.len(),
            r.3 == (if self@.lanes.terminal is Some {
                1int
            } else {
                0int
            }),
    {
        self.lanes.queued_counts()
    }
}

/// Closing never throws away what was admitted before.
pub proof fn law_closed_bridge_drains(bridge: BridgeView)
    requires
        bridge.closed,
        bridge.lanes.next_item() is Some,
    ensures
        bridge.next() is Item,
        bridge.taken().closed,
{
}

/// A closed bridge takes nothing.
pub proof fn law_closed_bridge_takes_nothing(
    bridge: BridgeView,
    pending: LanePending,
    cancelled: bool,
)
    requires
        bridge.closed,
    ensures
        bridge.admission(pending, cancelled) == BridgeAdmission::Refused,
        bridge.offered(pending, cancelled) == bridge,
{
}

/// Even a bridge whose every lane is full takes the last event of a run.
pub proof fn law_the_last_event_is_never_refused(
    bridge: BridgeView,
    session_id: u64,
    event: Arc<BackendEventEnvelope>,
    cancelled: bool,
)
    requires
        !bridge.closed,
        bridge.lanes.next_admission == bridge.lanes.next_sequence,
        event.terminal(),
    ensures
        bridge.ticketed().admission(bridge.place(session_id, event), cancelled)
            == BridgeAdmission::Accepted,
        bridge.ticketed().offered(
            bridge.place(session_id, event),
            cancelled,
        ).lanes.terminal is Some,
{
}

/// The callbacks of one public listener, as they are leased out.
#[derive(Clone, Copy, Debug, PartialEq, Eq, Structural)]
pub struct ListenerStatus {
    pub closed: bool,
    pub pending: u64,
    pub active: u64,
    /// The thread that runs the callback.
    pub active_thread: Option<u64>,
}

impl ListenerStatus {
    pub open spec fn fresh() -> ListenerStatus {
        ListenerStatus { closed: false, pending: 0, active: 0, active_thread: None }
    }

    pub fn new() -> (status: Self)
        ensures
            status == Self::fresh(),
    {
        ListenerStatus { closed: false, pending: 0, active: 0, active_thread: None }
    }

    /// A callback can be reserved: the listener is open and the reservations
    /// can be counted.
    pub open spec fn reservable(self) -> bool {
        !self.closed && self.pending < u64::MAX
    }

    pub open spec fn reserved(self) -> ListenerStatus {
        if self.reservable() {
            ListenerStatus { pending: (self.pending + 1) as u64, ..self }
        } else {
            self
        }
    }

    /// Reserves a callback; a closed listener refuses.
    pub fn reserve(&mut self) -> (reserved: bool)
        ensures
            reserved == old(self).reservable(),
            *final(self) == old(self).reserved(),
    {
        if self.closed || self.pending == u64::MAX {
            return false;
        }
        self.pending = self.pending + 1;
        true
    }

    /// A reserved callback may run: the listener is open and the running
    /// callbacks can be counted.
    pub open spec fn beginnable(self) -> bool {
        !self.closed && self.active < u64::MAX
    }

    pub open spec fn begun(self, thread: u64) -> ListenerStatus {
        let pending = if self.pending > 0 {
            (self.pending - 1) as u64
        } else {
            0
        };
        if self.beginnable() {
            ListenerStatus {
                pending,
                active: (self.active + 1) as u64,
                active_thread: Some(thread),
                ..self
            }
        } else {
            ListenerStatus { pending, ..self }
        }
    }

    /// Turns a reservation into a running callback of this thread, unless the
    /// listener was closed in between.
    pub fn begin(&mut self, thread: u64) -> (begun: bool)
        ensures
            begun == old(self).beginnable(),
            *final(self) == old(self).begun(thread),
    {
        if self.pending > 0 {
            self.pending = self.pending - 1;
        }
        if self.closed || self.active == u64::MAX {
            return false;
        }
        self.active = self.active + 1;
        self.active_thread = Some(thread);
        true
    }

    pub open spec fn finished(self) -> ListenerStatus {
        let active = if self.active > 0 {
            (self.active - 1) as u64
        } else {
            0
        };
        ListenerStatus {
            active,
            active_thread: if active == 0 {
                None
            } else {
                self.active_thread
            },
            ..self
        }
    }

    /// Ends a running callback; tells whether none runs any more.
    pub fn finish(&mut self) -> (quiescent: bool)
        ensures
            *final(self) == old(self).finished(),
            quiescent == (final(self).active == 0),
    {
        if self.active > 0 {
            self.active = self.active - 1;
        }
        if self.active == 0 {
            self.active_thread = None;
        }
        self.active == 0
    }

    /// Closes the listener: no callback begins any more.
    pub fn close(&mut self)
        ensures
            *final(self) == (ListenerStatus { closed: true, ..*old(self) }),
    {
        self.closed = true;
    }

    pub fn is_closed(&self) -> (r: bool)
        ensures
            r == self.closed,
    {
        self.closed
    }

    /// A callback runs on another thread than this one.
    pub open spec fn busy_elsewhere(self, thread: u64) -> bool {
        self.active > 0 && self.active_thread != Some(thread)
    }

    /// Whoever closes waits for a running callback, but never for its own.
    pub fn must_wait(&self, thread: u64) -> (r: bool)
        ensures
            r == self.busy_elsewhere(thread),
    {
        self.active > 0 && match self.active_thread {
            Some(active) => active != thread,
            None => true,
        }
    }
}

/// Once closed, a listener begins no callback, and the running ones only end.
pub proof fn law_closed_listener_winds_down(status: ListenerStatus, thread: u64)
    requires
        status.closed,
    ensures
        status.reserved() == status,
        !status.beginnable(),
        status.begun(thread).active == status.active,
        status.begun(thread).closed,
        status.finished().closed,
        status.finished().active <= status.active,
{
}

/// A callback that is reserved, begun and finished leaves the counts as they were.
pub proof fn law_listener_lease_is_returned(status: ListenerStatus, thread: u64)
    requires
        status.reservable(),
        status.beginnable(),
    ensures
        status.reserved().begun(thread).finished().pending == status.pending,
        status.reserved().begun(thread).finished().active == status.active,
        status.reserved().begun(thread).finished().closed == status.closed,
{
}

/// An event waits for its turn, however long it takes; when it has come, the lanes
/// decide. Only waiting for room can be given up.
pub proof fn law_events_wait_for_their_turn(
    bridge: BridgeView,
    pending: LanePending,
    cancelled: bool,
)
    requires
        !bridge.closed,
    ensures
        bridge.lanes.next_admission != pending.sequence ==> bridge.admission(pending, cancelled)
            == BridgeAdmission::Wait && bridge.offered(pending, cancelled) == bridge,
        bridge.lanes.next_admission == pending.sequence ==> {
            let verdict = bridge.lanes.verdict(pending, cancelled);
            &&& bridge.admission(pending, cancelled) == BridgeAdmission::Accepted <==> (verdict
                == LaneVerdict::Stored || verdict == LaneVerdict::Counted)
            &&& bridge.admission(pending, cancelled) == BridgeAdmission::Wait <==> verdict
                == LaneVerdict::Wait
            &&& bridge.admission(pending, cancelled) == BridgeAdmission::Refused <==> verdict
                == LaneVerdict::Cancelled
            &&& bridge.offered(pending, cancelled) == (BridgeView {
                lanes: bridge.lanes.admitted(pending, cancelled),
                ..bridge
            })
        },
{
}

/// An event gets the next place in the order, under the run that it is of.
pub proof fn law_events_get_their_place(
    bridge: BridgeView,
    session_id: u64,
    event: Arc<BackendEventEnvelope>,
)
    requires
        bridge.lanes.next_sequence < u64::MAX,
    ensures
        bridge.place(session_id, event).sequence == bridge.lanes.next_sequence,
        bridge.place(session_id, event).session_id == session_id,
        bridge.place(session_id, event).event == event,
        bridge.ticketed().lanes.next_sequence == bridge.lanes.next_sequence + 1,
        bridge.ticketed().lanes.next_admission == bridge.lanes.next_admission,
        bridge.ticketed().closed == bridge.closed,
{
}

/// The dispatcher gets what comes next; it waits on an empty bridge, and ends on
/// one that is closed as well.
pub proof fn law_what_the_dispatcher_gets(bridge: BridgeView)
    ensures
        bridge.lanes.next_item() matches Some(item) ==> bridge.next() == BridgeNext::Item(item),
        bridge.lanes.next_item() is None && !bridge.closed ==> bridge.next() is Wait,
        bridge.lanes.next_item() is None && bridge.closed ==> bridge.next() is Ended,
        bridge.taken().lanes == bridge.lanes.popped(),
        bridge.taken().closed == bridge.closed,
{
}

/// A fresh bridge is open and has nothing on it, and its losses are its own.
pub proof fn law_a_fresh_bridge_is_open(bridge: BridgeView)
    requires
        bridge == BridgeView::empty(),
    ensures
        !bridge.closed,
        bridge.lanes.ordinary.len() == 0,
        bridge.lanes.control.len() == 0,
        bridge.lanes.overflow.len() == 0,
        bridge.lanes.terminal is None,
        bridge.lanes.next_admission == bridge.lanes.next_sequence,
        bridge.lanes.scope == MarkerScope::Bridge,
{
}

/// Reservations and running callbacks are counted one by one: a callback that
/// begins uses up a reservation and runs in its thread, and the thread is
/// forgotten when the last one ends.
pub proof fn law_listener_callbacks_are_counted(status: ListenerStatus, thread: u64)
    ensures
        !status.closed && status.pending < u64::MAX ==> status.reserved() == (ListenerStatus {
            pending: (status.pending + 1) as u64,
            ..status
        }),
        status.closed || status.pending == u64::MAX ==> status.reserved() == status,
        status.pending > 0 ==> status.begun(thread).pending == status.pending - 1,
        status.pending == 0 ==> status.begun(thread).pending == 0,
        !status.closed && status.active < u64::MAX ==> status.begun(thread).active == status.active
            + 1 && status.begun(thread).active_thread == Some(thread),
        status.active > 0 ==> status.finished().active == status.active - 1,
        status.active == 0 ==> status.finished().active == 0,
        status.active <= 1 ==> status.finished().active_thread is None,
        status.active > 1 ==> status.finished().active_thread == status.active_thread,
        !ListenerStatus::fresh().closed,
        ListenerStatus::fresh().pending == 0,
        ListenerStatus::fresh().active == 0,
        ListenerStatus::fresh().active_thread is None,
{
}

/// Closing waits for the callbacks that run on other threads. It never waits when
/// nothing runs or for the thread that runs them itself.
pub proof fn law_what_closing_a_listener_waits_for(status: ListenerStatus, thread: u64)
    ensures
        status.active == 0 ==> !status.busy_elsewhere(thread),
        status.active_thread == Some(thread) ==> !status.busy_elsewhere(thread),
        status.active > 0 && status.active_thread is None ==> status.busy_elsewhere(thread),
        status.active > 0 && status.active_thread is Some && status.active_thread->0 != thread
            ==> status.busy_elsewhere(thread),
{
}

} // verus!
