//! Bounded event lanes that are merged in order of admission.
//!
//! Reconstructable facts, control facts, loss markers and the terminal event
//! each have a lane of fixed size. A fact that finds its lane full is counted
//! in a loss segment; the segment's marker stands where the first loss was. A
//! successful admission closes the segment, so a later loss is never folded
//! into an earlier marker. Control facts are never lost: they wait.

use std::collections::VecDeque;
use std::sync::Arc;

use vstd::prelude::*;

use crate::contract::{
    BackendEventEnvelope, BackendEventKind, BackendEventPayload, DroppedKinds, EventId,
};

verus! {

pub const ORDINARY_CAPACITY: usize = 256;

pub const CONTROL_CAPACITY: usize = 512;

pub const OVERFLOW_CAPACITY: usize = 64;

/// Which lanes a loss marker speaks for.
#[derive(Clone, Copy, Debug, PartialEq, Eq, Structural)]
pub enum MarkerScope {
    Dispatch,
    Broker,
    Bridge,
}

/// An event in its lane.
#[derive(Debug, PartialEq, Eq)]
pub struct LaneEntry {
    pub sequence: u64,
    pub session_id: u64,
    pub event: Arc<BackendEventEnvelope>,
}

/// A run of consecutive losses.
#[derive(Debug, PartialEq, Eq)]
pub struct LossSegment {
    pub sequence: u64,
    pub session_id: u64,
    pub template: Arc<BackendEventEnvelope>,
    pub dropped_count: u64,
    pub dropped_kinds: DroppedKinds,
}

/// An event that holds a place in the admission order.
#[derive(Debug, PartialEq, Eq)]
pub struct LanePending {
    pub sequence: u64,
    pub session_id: u64,
    pub event: Arc<BackendEventEnvelope>,
}

impl Clone for LanePending {
    fn clone(&self) -> (r: Self)
        ensures
            r == *self,
    {
        LanePending {
            sequence: self.sequence,
            session_id: self.session_id,
            event: self.event.clone(),
        }
    }
}

/// An event taken from the lanes, with the session it belongs to.
#[derive(Debug, PartialEq, Eq)]
pub struct LaneItem {
    pub session_id: u64,
    pub event: Arc<BackendEventEnvelope>,
}

/// How an attempt at admission ended.
#[derive(Clone, Copy, Debug, PartialEq, Eq, Structural)]
pub enum LaneVerdict {
    /// Something new can be taken from the lanes.
    Stored,
    /// The event was counted in the open loss segment.
    Counted,
    /// There is no room, or it is not this event's turn.
    Wait,
    /// The event was given up because waiting is over.
    Cancelled,
}

/// The lane from which the next event comes.
#[derive(Clone, Copy, Debug, PartialEq, Eq, Structural)]
pub enum Lane {
    Ordinary,
    Control,
    Overflow,
    Terminal,
}

/// The event that reports a loss segment.
pub open spec fn marker_event(scope: MarkerScope, segment: LossSegment) -> BackendEventEnvelope {
    BackendEventEnvelope {
        id: match scope {
            MarkerScope::Dispatch => EventId::DispatchOverflow(segment.sequence),
            MarkerScope::Broker => EventId::RuntimeOverflow(segment.sequence),
            MarkerScope::Bridge => EventId::Overflow(segment.sequence),
        },
        occurred_at: segment.template.occurred_at,
        process_session_id: segment.template.process_session_id,
        connection_epoch: segment.template.connection_epoch,
        connection_attempt_id: segment.template.connection_attempt_id,
        world_id: segment.template.world_id,
        dimension: segment.template.dimension,
        source: segment.template.source,
        payload: BackendEventPayload::Overflow {
            dropped_count: segment.dropped_count,
            dropped_kinds: segment.dropped_kinds,
        },
    }
}

/// The lanes as a value.
#[verifier::ext_equal]
pub ghost struct LanesView {
    pub scope: MarkerScope,
    pub ordinary: Seq<LaneEntry>,
    pub control: Seq<LaneEntry>,
    pub overflow: Seq<LossSegment>,
    pub terminal: Option<LaneEntry>,
    pub next_sequence: u64,
    pub next_admission: u64,
    pub open_loss_segment: Option<u64>,
}

/// The number after `n`; after the last one comes zero.
pub open spec fn successor(n: u64) -> u64 {
    if n == u64::MAX {
        0
    } else {
        (n + 1) as u64
    }
}

/// One more loss, up to the largest count.
pub open spec fn one_more(n: u64) -> u64 {
    if n == u64::MAX {
        n
    } else {
        (n + 1) as u64
    }
}

impl LanesView {
    pub open spec fn empty(scope: MarkerScope) -> LanesView {
        LanesView {
            scope,
            ordinary: Seq::empty(),
            control: Seq::empty(),
            overflow: Seq::empty(),
            terminal: None,
            next_sequence: 1,
            next_admission: 1,
            open_loss_segment: None,
        }
    }

    /// No lane is over its capacity.
    pub open spec fn bounded(self) -> bool {
        &&& self.ordinary.len() <= ORDINARY_CAPACITY
        &&& self.control.len() <= CONTROL_CAPACITY
        &&& self.overflow.len() <= OVERFLOW_CAPACITY
    }

    /// The open loss segment is the last one of its lane.
    pub open spec fn segment_open(self) -> bool {
        self.overflow.len() > 0 && self.open_loss_segment == Some(self.overflow.last().sequence)
    }

    pub open spec fn advanced(self) -> LanesView {
        LanesView { next_admission: successor(self.next_admission), ..self }
    }

    /// The lanes once `entry` has taken its place; that closes a loss segment.
    pub open spec fn settled(self) -> LanesView {
        LanesView { open_loss_segment: None, ..self.advanced() }
    }

    /// The verdict on an event whose turn it is.
    pub open spec fn verdict(self, pending: LanePending, cancelled: bool) -> LaneVerdict {
        let event = *pending.event;
        let refused = if cancelled {
            LaneVerdict::Cancelled
        } else {
            LaneVerdict::Wait
        };
        if event.terminal() {
            LaneVerdict::Stored
        } else if event.droppable() {
            if self.ordinary.len() < ORDINARY_CAPACITY {
                LaneVerdict::Stored
            } else if self.segment_open() {
                LaneVerdict::Counted
            } else if self.overflow.len() < OVERFLOW_CAPACITY {
                LaneVerdict::Stored
            } else {
                refused
            }
        } else if self.control.len() < CONTROL_CAPACITY {
            LaneVerdict::Stored
        } else {
            refused
        }
    }

    /// The lanes after that verdict.
    pub open spec fn admitted(self, pending: LanePending, cancelled: bool) -> LanesView {
        let event = *pending.event;
        let entry = LaneEntry {
            sequence: pending.sequence,
            session_id: pending.session_id,
            event: pending.event,
        };
        match self.verdict(pending, cancelled) {
            LaneVerdict::Wait => self,
            LaneVerdict::Cancelled => self.advanced(),
            LaneVerdict::Counted => LanesView {
                overflow: self.overflow.update(
                    self.overflow.len() - 1,
                    LossSegment {
                        dropped_count: one_more(self.overflow.last().dropped_count),
                        dropped_kinds: self.overflow.last().dropped_kinds.with_kind(
                            event.spec_kind(),
                        ),
                        ..self.overflow.last()
                    },
                ),
                ..self.advanced()
            },
            LaneVerdict::Stored => if event.terminal() {
                LanesView {
                    terminal: if self.terminal is None {
                        Some(entry)
                    } else {
                        self.terminal
                    },
                    ..self.settled()
                }
            } else if !event.droppable() {
                LanesView { control: self.control.push(entry), ..self.settled() }
            } else if self.ordinary.len() < ORDINARY_CAPACITY {
                LanesView { ordinary: self.ordinary.push(entry), ..self.settled() }
            } else {
                LanesView {
                    overflow: self.overflow.push(
                        LossSegment {
                            sequence: pending.sequence,
                            session_id: pending.session_id,
                            template: pending.event,
                            dropped_count: 1,
                            dropped_kinds: DroppedKinds {
                                first: event.spec_kind(),
                                second: None,
                                third: None,
                            },
                        },
                    ),
                    open_loss_segment: Some(pending.sequence),
                    ..self.advanced()
                }
            },
        }
    }

    /// The earliest of two candidates; the first one wins a tie.
    pub open spec fn earlier(
        a: Option<(u64, Lane)>,
        b: Option<(u64, Lane)>,
    ) -> Option<(u64, Lane)> {
        match (a, b) {
            (Some(x), Some(y)) => if y.0 < x.0 {
                b
            } else {
                a
            },
            (None, _) => b,
            (_, None) => a,
        }
    }

    pub open spec fn ordinary_head(self) -> Option<(u64, Lane)> {
        if self.ordinary.len() > 0 {
            Some((self.ordinary[0].sequence, Lane::Ordinary))
        } else {
            None
        }
    }

    pub open spec fn control_head(self) -> Option<(u64, Lane)> {
        if self.control.len() > 0 {
            Some((self.control[0].sequence, Lane::Control))
        } else {
            None
        }
    }

    pub open spec fn overflow_head(self) -> Option<(u64, Lane)> {
        if self.overflow.len() > 0 {
            Some((self.overflow[0].sequence, Lane::Overflow))
        } else {
            None
        }
    }

    pub open spec fn terminal_head(self) -> Option<(u64, Lane)> {
        match self.terminal {
            Some(entry) => Some((entry.sequence, Lane::Terminal)),
            None => None,
        }
    }

    /// The lane whose head has the smallest sequence, with that sequence.
    pub open spec fn head(self) -> Option<(u64, Lane)> {
        Self::earlier(
            Self::earlier(
                Self::earlier(self.ordinary_head(), self.control_head()),
                self.overflow_head(),
            ),
            self.terminal_head(),
        )
    }

    /// What the next take hands out.
    pub open spec fn next_item(self) -> Option<LaneItem> {
        match self.head() {
            None => None,
            Some((_, Lane::Ordinary)) => Some(
                LaneItem { session_id: self.ordinary[0].session_id, event: self.ordinary[0].event },
            ),
            Some((_, Lane::Control)) => Some(
                LaneItem { session_id: self.control[0].session_id, event: self.control[0].event },
            ),
            Some((_, Lane::Terminal)) => Some(
                LaneItem { session_id: self.terminal->0.session_id, event: self.terminal->0.event },
            ),
            Some((_, Lane::Overflow)) => Some(
                LaneItem {
                    session_id: self.overflow[0].session_id,
                    event: Arc::new(marker_event(self.scope, self.overflow[0])),
                },
            ),
        }
    }

    /// The lanes after a take.
    pub open spec fn popped(self) -> LanesView {
        match self.head() {
            None => self,
            Some((_, Lane::Ordinary)) => LanesView {
                ordinary: self.ordinary.subrange(1, self.ordinary.len() as int),
                ..self
            },
            Some((_, Lane::Control)) => LanesView {
                control: self.control.subrange(1, self.control.len() as int),
                ..self
            },
            Some((_, Lane::Terminal)) => LanesView { terminal: None, ..self },
            Some((_, Lane::Overflow)) => LanesView {
                overflow: self.overflow.subrange(1, self.overflow.len() as int),
                open_loss_segment: if self.open_loss_segment == Some(self.overflow[0].sequence) {
                    None
                } else {
                    self.open_loss_segment
                },
                ..self
            },
        }
    }
}

/// Four bounded lanes and the order of admission.
pub struct Lanes {
    pub scope: MarkerScope,
    pub ordinary: VecDeque<LaneEntry>,
    pub control: VecDeque<LaneEntry>,
    pub overflow: VecDeque<LossSegment>,
    pub terminal: Option<LaneEntry>,
    pub next_sequence: u64,
    pub next_admission: u64,
    pub open_loss_segment: Option<u64>,
}

impl View for Lanes {
    type V = LanesView;

    open spec fn view(&self) -> LanesView {
        LanesView {
            scope: self.scope,
            ordinary: self.ordinary@,
            control: self.control@,
            overflow: self.overflow@,
            terminal: self.terminal,
            next_sequence: self.next_sequence,
            next_admission: self.next_admission,
            open_loss_segment: self.open_loss_segment,
        }
    }
}

fn increment(n: u64) -> (r: u64)
    ensures
        r == successor(n),
{
    if n == u64::MAX {
        0
    } else {
        n + 1
    }
}

impl Lanes {
    pub fn new(scope: MarkerScope) -> (lanes: Self)
        ensures
            lanes@ == LanesView::empty(scope),
            lanes@.bounded(),
    {
        Lanes {
            scope,
            ordinary: VecDeque::new(),
            control: VecDeque::new(),
            overflow: VecDeque::new(),
            terminal: None,
            next_sequence: 1,
            next_admission: 1,
            open_loss_segment: None,
        }
    }

    /// Gives an event its place in the order of admission.
    pub fn ticket(
        &mut self,
        session_id: u64,
        event: Arc<BackendEventEnvelope>,
    ) -> (pending: LanePending)
        ensures
            pending == (LanePending { sequence: old(self)@.next_sequence, session_id, event }),
            final(self)@ == (LanesView {
                next_sequence: successor(old(self)@.next_sequence),
                ..old(self)@
            }),
    {
        let sequence: u64 = self.next_sequence;
        self.next_sequence = increment(sequence);
        LanePending { sequence, session_id, event }
    }

    /// Lets the next place in the order pass.
    pub fn advance_admission(&mut self)
        ensures
            final(self)@ == old(self)@.advanced(),
    {
        self.next_admission = increment(self.next_admission);
    }

    fn last_segment_open(&self) -> (r: bool)
        ensures
            r == self@.segment_open(),
    {
        if self.overflow.len() == 0 {
            return false;
        }
        let last = &self.overflow[self.overflow.len() - 1];
        match self.open_loss_segment {
            Some(sequence) => sequence == last.sequence,
            None => false,
        }
    }

    /// Counts one more loss in the last segment.
    fn record_overflow_loss(&mut self, kind: BackendEventKind)
        requires
            old(self)@.overflow.len() > 0,
        ensures
            final(self)@ == (LanesView {
                overflow: old(self)@.overflow.update(
                    old(self)@.overflow.len() - 1,
                    LossSegment {
                        dropped_count: one_more(old(self)@.overflow.last().dropped_count),
                        dropped_kinds: old(self)@.overflow.last().dropped_kinds.with_kind(kind),
                        ..old(self)@.overflow.last()
                    },
                ),
                ..old(self)@
            }),
    {
        if let Some(mut segment) = self.overflow.pop_back() {
            if segment.dropped_count < u64::MAX {
                segment.dropped_count = segment.dropped_count + 1;
            }
            let mut kinds = segment.dropped_kinds;
            kinds.record(kind);
            segment.dropped_kinds = kinds;
            self.overflow.push_back(segment);
        }
        assert(self@.overflow =~= old(self)@.overflow.update(
            old(self)@.overflow.len() - 1,
            LossSegment {
                dropped_count: one_more(old(self)@.overflow.last().dropped_count),
                dropped_kinds: old(self)@.overflow.last().dropped_kinds.with_kind(kind),
                ..old(self)@.overflow.last()
            },
        ));
    }

    /// Tries to place an event whose turn it is.
    pub fn offer(&mut self, pending: &LanePending, cancelled: bool) -> (verdict: LaneVerdict)
        requires
            old(self)@.bounded(),
        ensures
            verdict == old(self)@.verdict(*pending, cancelled),
            final(self)@ == old(self)@.admitted(*pending, cancelled),
            final(self)@.bounded(),
    {
        if pending.event.is_terminal() {
            if self.terminal.is_none() {
                self.terminal = Some(
                    LaneEntry {
                        sequence: pending.sequence,
                        session_id: pending.session_id,
                        event: pending.event.clone(),
                    },
                );
            }
            self.open_loss_segment = None;
            self.advance_admission();
            return LaneVerdict::Stored;
        }
        if pending.event.is_droppable() {
            if self.ordinary.len() < ORDINARY_CAPACITY {
                self.ordinary.push_back(
                    LaneEntry {
                        sequence: pending.sequence,
                        session_id: pending.session_id,
                        event: pending.event.clone(),
                    },
                );
                self.open_loss_segment = None;
                self.advance_admission();
                return LaneVerdict::Stored;
            }
            if self.last_segment_open() {
                self.record_overflow_loss(pending.event.kind());
                self.advance_admission();
                return LaneVerdict::Counted;
            }
            if self.overflow.len() < OVERFLOW_CAPACITY {
                self.overflow.push_back(
                    LossSegment {
                        sequence: pending.sequence,
                        session_id: pending.session_id,
                        template: pending.event.clone(),
                        dropped_count: 1,
                        dropped_kinds: DroppedKinds {
                            first: pending.event.kind(),
                            second: None,
                            third: None,
                        },
                    },
                );
                self.open_loss_segment = Some(pending.sequence);
                self.advance_admission();
                return LaneVerdict::Stored;
            }
        } else if self.control.len() < CONTROL_CAPACITY {
            self.control.push_back(
                LaneEntry {
                    sequence: pending.sequence,
                    session_id: pending.session_id,
                    event: pending.event.clone(),
                },
            );
            self.open_loss_segment = None;
            self.advance_admission();
            return LaneVerdict::Stored;
        }
        if cancelled {
            self.advance_admission();
            LaneVerdict::Cancelled
        } else {
            LaneVerdict::Wait
        }
    }

    fn earliest(a: Option<(u64, Lane)>, b: Option<(u64, Lane)>) -> (r: Option<(u64, Lane)>)
        ensures
            r == LanesView::earlier(a, b),
    {
        match (a, b) {
            (Some(x), Some(y)) => if y.0 < x.0 {
                b
            } else {
                a
            },
            (None, _) => b,
            (_, None) => a,
        }
    }

    fn head(&self) -> (r: Option<(u64, Lane)>)
        ensures
            r == self@.head(),
    {
        let ordinary = if self.ordinary.len() > 0 {
            Some((self.ordinary[0].sequence, Lane::Ordinary))
        } else {
            None
        };
        let control = if self.control.len() > 0 {
            Some((self.control[0].sequence, Lane::Control))
        } else {
            None
        };
        let overflow = if self.overflow.len() > 0 {
            Some((self.overflow[0].sequence, Lane::Overflow))
        } else {
            None
        };
        let terminal = match &self.terminal {
            Some(entry) => Some((entry.sequence, Lane::Terminal)),
            None => None,
        };
        Self::earliest(Self::earliest(Self::earliest(ordinary, control), overflow), terminal)
    }

    /// Takes the event that was admitted first.
    pub fn pop_next(&mut self) -> (item: Option<LaneItem>)
        requires
            old(self)@.bounded(),
        ensures
            item == old(self)@.next_item(),
            final(self)@ == old(self)@.popped(),
            final(self)@.bounded(),
    {
        match self.head() {
            None => None,
            Some((_, lane)) => match lane {
                Lane::Ordinary => match self.ordinary.pop_front() {
                    Some(entry) => Some(
                        LaneItem { session_id: entry.session_id, event: entry.event },
                    ),
                    None => None,
                },
                Lane::Control => match self.control.pop_front() {
                    Some(entry) => Some(
                        LaneItem { session_id: entry.session_id, event: entry.event },
                    ),
                    None => None,
                },
                Lane::Terminal => match self.terminal.take() {
                    Some(entry) => Some(
                        LaneItem { session_id: entry.session_id, event: entry.event },
                    ),
                    None => None,
                },
                Lane::Overflow => match self.overflow.pop_front() {
                    Some(segment) => {
                        if let Some(open) = self.open_loss_segment {
                            if open == segment.sequence {
                                self.open_loss_segment = None;
                            }
                        }
                        let id = match self.scope {
                            MarkerScope::Dispatch => EventId::DispatchOverflow(segment.sequence),
                            MarkerScope::Broker => EventId::RuntimeOverflow(segment.sequence),
                            MarkerScope::Bridge => EventId::Overflow(segment.sequence),
                        };
                        let template = segment.template;
                        let event = BackendEventEnvelope {
                            id,
                            occurred_at: template.occurred_at,
                            process_session_id: template.process_session_id.clone(),
                            connection_epoch: template.connection_epoch,
                            connection_attempt_id: template.connection_attempt_id,
                            world_id: template.world_id.clone(),
                            dimension: template.dimension.clone(),
                            source: template.source,
                            payload: BackendEventPayload::Overflow {
                                dropped_count: segment.dropped_count,
                                dropped_kinds: segment.dropped_kinds,
                            },
                        };
                        Some(LaneItem { session_id: segment.session_id, event: Arc::new(event) })
                    },
                    None => None,
                },
            },
        }
    }

    /// How much each lane holds: ordinary, control, loss segments, terminal.
    pub fn queued_counts(&self) -> (r: (usize, usize, usize, usize))
        ensures
            r.0 == self@.ordinary.len(),
            r.1 == self@.control.len(),
            r.2 == self@.overflow.len(),
            r.3 == (if self@.terminal is Some {
                1int
            } else {
                0int
            }),
    {
        let terminal: usize = if self.terminal.is_some() {
            1
        } else {
            0
        };
        (self.ordinary.len(), self.control.len(), self.overflow.len(), terminal)
    }
}

impl LanesView {
    /// Entries stand in the order in which they were admitted, every stored
    /// sequence has had its turn, and none occurs twice.
    pub open spec fn ordered(self) -> bool {
        &&& self.next_admission <= self.next_sequence
        &&& forall|i: int, j: int|
            0 <= i < j < self.ordinary.len() ==> (#[trigger] self.ordinary[i]).sequence < (
            #[trigger] self.ordinary[j]).sequence
        &&& forall|i: int, j: int|
            0 <= i < j < self.control.len() ==> (#[trigger] self.control[i]).sequence < (
            #[trigger] self.control[j]).sequence
        &&& forall|i: int, j: int|
            0 <= i < j < self.overflow.len() ==> (#[trigger] self.overflow[i]).sequence < (
            #[trigger] self.overflow[j]).sequence
        &&& forall|i: int|
            0 <= i < self.ordinary.len() ==> (#[trigger] self.ordinary[i]).sequence
                < self.next_admission
        &&& forall|i: int|
            0 <= i < self.control.len() ==> (#[trigger] self.control[i]).sequence
                < self.next_admission
        &&& forall|i: int|
            0 <= i < self.overflow.len() ==> (#[trigger] self.overflow[i]).sequence
                < self.next_admission
        &&& forall|i: int, j: int|
            0 <= i < self.ordinary.len() && 0 <= j < self.control.len() ==> (
            #[trigger] self.ordinary[i]).sequence != (#[trigger] self.control[j]).sequence
        &&& forall|i: int, j: int|
            0 <= i < self.ordinary.len() && 0 <= j < self.overflow.len() ==> (
            #[trigger] self.ordinary[i]).sequence != (#[trigger] self.overflow[j]).sequence
        &&& forall|i: int, j: int|
            0 <= i < self.control.len() && 0 <= j < self.overflow.len() ==> (
            #[trigger] self.control[i]).sequence != (#[trigger] self.overflow[j]).sequence
        &&& (self.terminal matches Some(entry) ==> {
            &&& entry.sequence < self.next_admission
            &&& forall|i: int|
                0 <= i < self.ordinary.len() ==> (#[trigger] self.ordinary[i]).sequence
                    != entry.sequence
            &&& forall|i: int|
                0 <= i < self.control.len() ==> (#[trigger] self.control[i]).sequence
                    != entry.sequence
            &&& forall|i: int|
                0 <= i < self.overflow.len() ==> (#[trigger] self.overflow[i]).sequence
                    != entry.sequence
        })
    }

    /// `sequence` is below every sequence that the lanes hold.
    pub open spec fn all_after(self, sequence: u64) -> bool {
        &&& forall|i: int|
            0 <= i < self.ordinary.len() ==> sequence < (#[trigger] self.ordinary[i]).sequence
        &&& forall|i: int|
            0 <= i < self.control.len() ==> sequence < (#[trigger] self.control[i]).sequence
        &&& forall|i: int|
            0 <= i < self.overflow.len() ==> sequence < (#[trigger] self.overflow[i]).sequence
        &&& (self.terminal matches Some(entry) ==> sequence < entry.sequence)
    }

    /// How many events the lanes stand for: those they hold and those that
    /// their loss segments count.
    pub open spec fn represented(self) -> int {
        self.ordinary.len() + self.control.len() + total_dropped(self.overflow) + (
        if self.terminal is Some {
            1int
        } else {
            0int
        })
    }
}

/// The losses that a run of segments counts.
pub open spec fn total_dropped(segments: Seq<LossSegment>) -> int
    decreases segments.len(),
{
    if segments.len() == 0 {
        0
    } else {
        total_dropped(segments.drop_last()) + segments.last().dropped_count
    }
}

proof fn lemma_total_dropped_first(segments: Seq<LossSegment>)
    requires
        segments.len() > 0,
    ensures
        total_dropped(segments) == segments[0].dropped_count + total_dropped(
            segments.subrange(1, segments.len() as int),
        ),
    decreases segments.len(),
{
    let rest = segments.subrange(1, segments.len() as int);
    if segments.len() == 1 {
        assert(segments.drop_last() =~= Seq::empty());
        assert(rest =~= Seq::empty());
    } else {
        lemma_total_dropped_first(segments.drop_last());
        assert(segments.drop_last().subrange(1, segments.len() - 1) =~= rest.drop_last());
    }
}

/// Admission in turn keeps the lanes ordered.
pub proof fn law_admission_keeps_order(lanes: LanesView, pending: LanePending, cancelled: bool)
    requires
        lanes.ordered(),
        pending.sequence == lanes.next_admission,
        lanes.next_admission < lanes.next_sequence,
    ensures
        lanes.admitted(pending, cancelled).ordered(),
{
    let after = lanes.admitted(pending, cancelled);
    if lanes.verdict(pending, cancelled) == LaneVerdict::Counted {
        assert forall|i: int| 0 <= i < after.overflow.len() implies (
        #[trigger] after.overflow[i]).sequence == lanes.overflow[i].sequence by {}
    }
}

/// Drawing a place keeps the lanes ordered, until the numbers run out.
pub proof fn law_ticket_keeps_order(lanes: LanesView)
    requires
        lanes.ordered(),
        lanes.next_sequence < u64::MAX,
    ensures
        (LanesView { next_sequence: successor(lanes.next_sequence), ..lanes }).ordered(),
{
}

/// Taking keeps the lanes ordered.
pub proof fn law_taking_keeps_order(lanes: LanesView)
    requires
        lanes.ordered(),
    ensures
        lanes.popped().ordered(),
{
    let after = lanes.popped();
    match lanes.head() {
        Some((_, Lane::Ordinary)) => {
            assert forall|i: int| 0 <= i < after.ordinary.len() implies
            #[trigger] after.ordinary[i] == lanes.ordinary[i + 1] by {}
        },
        Some((_, Lane::Control)) => {
            assert forall|i: int| 0 <= i < after.control.len() implies
            #[trigger] after.control[i] == lanes.control[i + 1] by {}
        },
        Some((_, Lane::Overflow)) => {
            assert forall|i: int| 0 <= i < after.overflow.len() implies
            #[trigger] after.overflow[i] == lanes.overflow[i + 1] by {}
        },
        _ => {},
    }
}

/// Events leave in the order in which they were admitted: what is taken comes
/// before everything that is left.
pub proof fn law_taken_event_was_admitted_first(lanes: LanesView)
    requires
        lanes.ordered(),
    ensures
        lanes.head() matches Some((sequence, _)) ==> lanes.popped().all_after(sequence),
        lanes.head() is None ==> lanes.popped() == lanes,
{
    let after = lanes.popped();
    match lanes.head() {
        Some((sequence, lane)) => {
            assert forall|i: int| 0 <= i < after.ordinary.len() implies sequence < (
            #[trigger] after.ordinary[i]).sequence by {
                if lane == Lane::Ordinary {
                    assert(after.ordinary[i] == lanes.ordinary[i + 1]);
                    assert(lanes.ordinary[0].sequence < lanes.ordinary[i + 1].sequence);
                } else {
                    if i > 0 {
                        assert(lanes.ordinary[0].sequence < lanes.ordinary[i].sequence);
                    }
                }
            }
            assert forall|i: int| 0 <= i < after.control.len() implies sequence < (
            #[trigger] after.control[i]).sequence by {
                if lane == Lane::Control {
                    assert(after.control[i] == lanes.control[i + 1]);
                    assert(lanes.control[0].sequence < lanes.control[i + 1].sequence);
                } else {
                    if i > 0 {
                        assert(lanes.control[0].sequence < lanes.control[i].sequence);
                    }
                }
            }
            assert forall|i: int| 0 <= i < after.overflow.len() implies sequence < (
            #[trigger] after.overflow[i]).sequence by {
                if lane == Lane::Overflow {
                    assert(after.overflow[i] == lanes.overflow[i + 1]);
                    assert(lanes.overflow[0].sequence < lanes.overflow[i + 1].sequence);
                } else {
                    if i > 0 {
                        assert(lanes.overflow[0].sequence < lanes.overflow[i].sequence);
                    }
                }
            }
        },
        None => {},
    }
}

/// Every accepted event stays represented, held or counted. (A second terminal
/// event is the one exception, and a count that is full stays full.)
pub proof fn law_accepted_events_are_represented(
    lanes: LanesView,
    pending: LanePending,
    cancelled: bool,
)
    requires
        lanes.bounded(),
        !(pending.event.terminal() && lanes.terminal is Some),
        lanes.overflow.len() > 0 ==> lanes.overflow.last().dropped_count < u64::MAX,
    ensures
        lanes.verdict(pending, cancelled) == LaneVerdict::Stored || lanes.verdict(
            pending,
            cancelled,
        ) == LaneVerdict::Counted ==> lanes.admitted(pending, cancelled).represented()
            == lanes.represented() + 1,
        lanes.verdict(pending, cancelled) == LaneVerdict::Wait || lanes.verdict(pending, cancelled)
            == LaneVerdict::Cancelled ==> lanes.admitted(pending, cancelled).represented()
            == lanes.represented(),
{
    let after = lanes.admitted(pending, cancelled);
    if lanes.verdict(pending, cancelled) == LaneVerdict::Counted {
        assert(after.overflow.drop_last() =~= lanes.overflow.drop_last());
    }
    if after.overflow.len() == lanes.overflow.len() + 1 {
        assert(after.overflow.drop_last() =~= lanes.overflow);
    }
}

/// A take removes exactly what it reports: one event, or the losses of one segment.
pub proof fn law_taking_removes_what_it_reports(lanes: LanesView)
    ensures
        lanes.next_item() matches Some(item) ==> lanes.popped().represented()
            == lanes.represented() - (if (lanes.head()->0).1 == Lane::Overflow {
            lanes.overflow[0].dropped_count as int
        } else {
            1int
        }),
{
    match lanes.head() {
        Some((_, Lane::Overflow)) => {
            lemma_total_dropped_first(lanes.overflow);
        },
        _ => {},
    }
}

/// A control event is never lost: it takes its place at the end of its lane, or
/// it waits and nothing changes, as long as waiting has not been cancelled.
pub proof fn law_control_events_are_never_lost(lanes: LanesView, pending: LanePending)
    requires
        !pending.event.droppable(),
        !pending.event.terminal(),
    ensures
        lanes.verdict(pending, false) == LaneVerdict::Stored && lanes.admitted(
            pending,
            false,
        ).control == lanes.control.push(
            LaneEntry {
                sequence: pending.sequence,
                session_id: pending.session_id,
                event: pending.event,
            },
        ) || lanes.verdict(pending, false) == LaneVerdict::Wait && lanes.admitted(pending, false)
            == lanes,
{
}

/// The terminal event is always taken, even when waiting has been cancelled,
/// and only the first one is kept.
pub proof fn law_terminal_event_always_has_its_slot(
    lanes: LanesView,
    pending: LanePending,
    cancelled: bool,
)
    requires
        pending.event.terminal(),
    ensures
        lanes.verdict(pending, cancelled) == LaneVerdict::Stored,
        lanes.admitted(pending, cancelled).terminal is Some,
        lanes.terminal is Some ==> lanes.admitted(pending, cancelled).terminal == lanes.terminal,
{
}

/// A successful admission closes the loss segment, so the next loss opens one
/// of its own.
pub proof fn law_admission_closes_the_loss_segment(
    lanes: LanesView,
    pending: LanePending,
    cancelled: bool,
)
    requires
        lanes.verdict(pending, cancelled) == LaneVerdict::Stored,
        lanes.admitted(pending, cancelled).overflow == lanes.overflow,
    ensures
        !lanes.admitted(pending, cancelled).segment_open(),
{
    let after = lanes.admitted(pending, cancelled);
    if after.overflow.len() == lanes.overflow.len() + 1 {
        assert(false);
    }
}

/// Taking the marker of an older segment does not close a newer one.
pub proof fn law_old_marker_does_not_close_new_segment(lanes: LanesView)
    requires
        lanes.ordered(),
        lanes.overflow.len() > 1,
        lanes.segment_open(),
        (lanes.head()->0).1 == Lane::Overflow,
        lanes.head() is Some,
    ensures
        lanes.popped().segment_open(),
{
    let after = lanes.popped();
    assert(lanes.overflow[0].sequence < lanes.overflow[lanes.overflow.len() - 1].sequence);
    assert(after.overflow.last() == lanes.overflow.last());
}

/// A fact about the world: an entity, a block or a sound.
pub open spec fn about_the_world(event: BackendEventEnvelope) -> bool {
    event.payload is Entity || event.payload is Block || event.payload is Sound
}

/// The report that the runtime has stopped.
pub open spec fn reports_the_stop(event: BackendEventEnvelope) -> bool {
    event.payload matches BackendEventPayload::Lifecycle(what) && what is Stopped
}

/// An event that finds room goes to the end of its own lane and to no other:
/// up to 256 facts about the world, up to 512 of all other events, and the
/// report of the stop in a place of its own.
pub proof fn law_events_with_room_join_their_lane(
    lanes: LanesView,
    pending: LanePending,
    cancelled: bool,
)
    ensures
        ({
            let after = lanes.admitted(pending, cancelled);
            let entry = LaneEntry {
                sequence: pending.sequence,
                session_id: pending.session_id,
                event: pending.event,
            };
            let stored = lanes.verdict(pending, cancelled) == LaneVerdict::Stored;
            &&& about_the_world(*pending.event) && lanes.ordinary.len() < 256 ==> {
                &&& stored
                &&& after.ordinary == lanes.ordinary.push(entry)
                &&& after.control == lanes.control
                &&& after.overflow == lanes.overflow
                &&& after.terminal == lanes.terminal
                &&& after.open_loss_segment is None
            }
            &&& !about_the_world(*pending.event) && !reports_the_stop(*pending.event)
                && lanes.control.len() < 512 ==> {
                &&& stored
                &&& after.control == lanes.control.push(entry)
                &&& after.ordinary == lanes.ordinary
                &&& after.overflow == lanes.overflow
                &&& after.terminal == lanes.terminal
                &&& after.open_loss_segment is None
            }
            &&& reports_the_stop(*pending.event) ==> {
                &&& stored
                &&& after.terminal == (if lanes.terminal is Some {
                    lanes.terminal
                } else {
                    Some(entry)
                })
                &&& after.ordinary == lanes.ordinary
                &&& after.control == lanes.control
                &&& after.overflow == lanes.overflow
                &&& after.open_loss_segment is None
            }
        }),
{
}

/// A fact about the world that finds its lane full is counted: in the segment
/// that is open, or in a new one, of which there are up to 64. What finds room
/// nowhere waits, or is given up once waiting is over; then nothing else changes.
pub proof fn law_events_without_room_are_counted_or_wait(
    lanes: LanesView,
    pending: LanePending,
    cancelled: bool,
)
    requires
        !reports_the_stop(*pending.event),
        about_the_world(*pending.event) ==> lanes.ordinary.len() >= 256,
        !about_the_world(*pending.event) ==> lanes.control.len() >= 512,
    ensures
        ({
            let after = lanes.admitted(pending, cancelled);
            let verdict = lanes.verdict(pending, cancelled);
            let open = lanes.overflow.len() > 0 && lanes.open_loss_segment == Some(
                lanes.overflow[lanes.overflow.len() - 1].sequence,
            );
            &&& after.ordinary == lanes.ordinary
            &&& after.control == lanes.control
            &&& after.terminal == lanes.terminal
            &&& if about_the_world(*pending.event) && open {
                let last = lanes.overflow[lanes.overflow.len() - 1];
                let counted = after.overflow[after.overflow.len() - 1];
                &&& verdict == LaneVerdict::Counted
                &&& after.overflow.len() == lanes.overflow.len()
                &&& after.overflow.drop_last() == lanes.overflow.drop_last()
                &&& counted.sequence == last.sequence
                &&& counted.template == last.template
                &&& counted.session_id == last.session_id
                &&& last.dropped_count < u64::MAX ==> counted.dropped_count == last.dropped_count
                    + 1
                &&& last.dropped_count == u64::MAX ==> counted.dropped_count == u64::MAX
                &&& counted.dropped_kinds == last.dropped_kinds.with_kind(
                    pending.event.payload.spec_kind(),
                )
                &&& after.open_loss_segment == lanes.open_loss_segment
            } else if about_the_world(*pending.event) && lanes.overflow.len() < 64 {
                let opened = after.overflow[after.overflow.len() - 1];
                &&& verdict == LaneVerdict::Stored
                &&& after.overflow.len() == lanes.overflow.len() + 1
                &&& after.overflow.drop_last() == lanes.overflow
                &&& opened.sequence == pending.sequence
                &&& opened.session_id == pending.session_id
                &&& opened.template == pending.event
                &&& opened.dropped_count == 1
                &&& opened.dropped_kinds.seq() == seq![pending.event.payload.spec_kind()]
                &&& after.open_loss_segment == Some(pending.sequence)
            } else {
                &&& verdict == (if cancelled {
                    LaneVerdict::Cancelled
                } else {
                    LaneVerdict::Wait
                })
                &&& after.overflow == lanes.overflow
                &&& after.open_loss_segment == lanes.open_loss_segment
                &&& !cancelled ==> after == lanes
            }
        }),
{
    let after = lanes.admitted(pending, cancelled);
    if lanes.verdict(pending, cancelled) == LaneVerdict::Counted {
        assert(after.overflow.drop_last() =~= lanes.overflow.drop_last());
    }
    if after.overflow.len() == lanes.overflow.len() + 1 {
        assert(after.overflow.drop_last() =~= lanes.overflow);
    }
}

/// What had its turn lets the next one have it; what waits keeps its turn.
pub proof fn law_turns_pass_on(lanes: LanesView, pending: LanePending, cancelled: bool)
    requires
        lanes.next_admission < u64::MAX,
    ensures
        lanes.admitted(pending, cancelled).next_admission == (if lanes.verdict(pending, cancelled)
            == LaneVerdict::Wait {
            lanes.next_admission as int
        } else {
            lanes.next_admission + 1
        }),
        lanes.admitted(pending, cancelled).next_sequence == lanes.next_sequence,
        lanes.admitted(pending, cancelled).scope == lanes.scope,
{
}

/// No lane begins with an event that came before this place.
pub open spec fn heads_after(lanes: LanesView, sequence: u64) -> bool {
    &&& lanes.ordinary.len() > 0 ==> sequence <= lanes.ordinary[0].sequence
    &&& lanes.control.len() > 0 ==> sequence <= lanes.control[0].sequence
    &&& lanes.overflow.len() > 0 ==> sequence <= lanes.overflow[0].sequence
    &&& lanes.terminal matches Some(entry) ==> sequence <= entry.sequence
}

/// No two lanes begin with the same place.
pub open spec fn heads_differ(lanes: LanesView) -> bool {
    &&& lanes.ordinary.len() > 0 && lanes.control.len() > 0 ==> lanes.ordinary[0].sequence
        != lanes.control[0].sequence
    &&& lanes.ordinary.len() > 0 && lanes.overflow.len() > 0 ==> lanes.ordinary[0].sequence
        != lanes.overflow[0].sequence
    &&& lanes.control.len() > 0 && lanes.overflow.len() > 0 ==> lanes.control[0].sequence
        != lanes.overflow[0].sequence
    &&& lanes.terminal matches Some(entry) ==> {
        &&& lanes.ordinary.len() > 0 ==> lanes.ordinary[0].sequence != entry.sequence
        &&& lanes.control.len() > 0 ==> lanes.control[0].sequence != entry.sequence
        &&& lanes.overflow.len() > 0 ==> lanes.overflow[0].sequence != entry.sequence
    }
}

/// A take hands out the event that came first, whatever lane it stands in, and
/// takes it from there. A loss is told by a marker that says how much was lost
/// and of which kinds, and otherwise where and when the first loss was.
pub proof fn law_a_take_hands_out_what_came_first(lanes: LanesView)
    requires
        heads_differ(lanes),
    ensures
        lanes.ordinary.len() > 0 && heads_after(lanes, lanes.ordinary[0].sequence) ==> {
            &&& lanes.next_item() == Some(
                LaneItem {
                    session_id: lanes.ordinary[0].session_id,
                    event: lanes.ordinary[0].event,
                },
            )
            &&& lanes.popped() == (LanesView { ordinary: lanes.ordinary.drop_first(), ..lanes })
        },
        lanes.control.len() > 0 && heads_after(lanes, lanes.control[0].sequence) ==> {
            &&& lanes.next_item() == Some(
                LaneItem { session_id: lanes.control[0].session_id, event: lanes.control[0].event },
            )
            &&& lanes.popped() == (LanesView { control: lanes.control.drop_first(), ..lanes })
        },
        lanes.terminal matches Some(entry) ==> heads_after(lanes, entry.sequence) ==> {
            &&& lanes.next_item() == Some(
                LaneItem { session_id: entry.session_id, event: entry.event },
            )
            &&& lanes.popped() == (LanesView { terminal: None, ..lanes })
        },
        lanes.overflow.len() > 0 && heads_after(lanes, lanes.overflow[0].sequence) ==> {
            let segment = lanes.overflow[0];
            &&& lanes.next_item() matches Some(item)
            &&& item.session_id == segment.session_id
            &&& item.event.payload == (BackendEventPayload::Overflow {
                dropped_count: segment.dropped_count,
                dropped_kinds: segment.dropped_kinds,
            })
            &&& item.event.occurred_at == segment.template.occurred_at
            &&& item.event.process_session_id == segment.template.process_session_id
            &&& item.event.connection_epoch == segment.template.connection_epoch
            &&& item.event.connection_attempt_id == segment.template.connection_attempt_id
            &&& item.event.world_id == segment.template.world_id
            &&& item.event.dimension == segment.template.dimension
            &&& item.event.source == segment.template.source
            &&& item.event.id == (match lanes.scope {
                MarkerScope::Dispatch => EventId::DispatchOverflow(segment.sequence),
                MarkerScope::Broker => EventId::RuntimeOverflow(segment.sequence),
                MarkerScope::Bridge => EventId::Overflow(segment.sequence),
            })
            &&& lanes.popped() == (LanesView {
                overflow: lanes.overflow.drop_first(),
                open_loss_segment: if lanes.open_loss_segment == Some(segment.sequence) {
                    None
                } else {
                    lanes.open_loss_segment
                },
                ..lanes
            })
        },
        lanes.ordinary.len() == 0 && lanes.control.len() == 0 && lanes.overflow.len() == 0
            && lanes.terminal is None ==> lanes.next_item() is None && lanes.popped() == lanes,
{
}

/// Fresh lanes hold nothing and have lost nothing; they count from one.
pub proof fn law_fresh_lanes_are_empty(scope: MarkerScope)
    ensures
        ({
            let fresh = LanesView::empty(scope);
            &&& fresh.scope == scope
            &&& fresh.ordinary.len() == 0
            &&& fresh.control.len() == 0
            &&& fresh.overflow.len() == 0
            &&& fresh.terminal is None
            &&& fresh.next_sequence == 1
            &&& fresh.next_admission == 1
            &&& fresh.open_loss_segment is None
        }),
{
}

} // verus!
