//! Claiming, admitting and finishing a reconnect.

use vstd::prelude::*;

use crate::config::{checked_increment, checked_next};
use crate::contract::AttemptId;
use crate::ownership::lemma_disowned_wf;
use crate::state::{
    AttemptAdmissionState, ConnectionState, Effect, PendingConnectionAttempt, ProducerView,
    RuntimeCounters, RuntimeFlags, RuntimeView, SharedRuntime,
};
use crate::time::UtcInstant;

verus! {

impl RuntimeView {
    /// The connection attempt of the current retry is under way.
    pub open spec fn connection_registered(self, entity: u64, attempt_token: u64) -> RuntimeView {
        self.with_pending_connection(
            Some(
                PendingConnectionAttempt {
                    entity,
                    attempt_token,
                    epoch: self.epoch(),
                    ordinal: self.counters.retry_ordinal,
                },
            ),
        )
    }

    /// The registered attempt is taken, if it is of this epoch and retry.
    pub open spec fn connection_taken(self, epoch: u64, ordinal: u64) -> RuntimeView {
        if self.pending_match(epoch, ordinal) is Some {
            self.with_pending_connection(None)
        } else {
            self
        }
    }

    /// The client of a retry may still be added.
    pub open spec fn retry_open(self, token: u64) -> bool {
        !self.flags.stopping && self.flags.reconnect_add_pending
            && self.counters.reconnect_attempt_token == token
    }

    pub open spec fn with_pending_connection(
        self,
        pending_connection: Option<PendingConnectionAttempt>,
    ) -> RuntimeView {
        RuntimeView {
            connection: ConnectionState { pending_connection, ..self.connection },
            ..self
        }
    }

    /// The registered connection attempt, if it is of this epoch and retry.
    pub open spec fn pending_match(self, epoch: u64, ordinal: u64) -> Option<(u64, u64)> {
        match self.connection.pending_connection {
            Some(pending) => if pending.epoch == epoch && pending.ordinal == ordinal {
                Some((pending.entity, pending.attempt_token))
            } else {
                None
            },
            None => None,
        }
    }

    /// No stop, and nobody else has claimed the reconnect.
    pub open spec fn reconnect_free(self) -> bool {
        !self.flags.stopping && !self.flags.reconnect_pending
    }

    /// The current attempt still waits for its own close.
    pub open spec fn close_outstanding(self) -> bool {
        !self.flags.disconnect_reported && (self.producer.owner is Some || (
        self.producer.attempt matches AttemptAdmissionState::Reserved { reconnect_token, .. }
            && reconnect_token is Some))
    }

    /// A disconnect without an entity may claim the reconnect: it is provably
    /// of the current attempt, and that attempt's close is not outstanding.
    pub open spec fn reconnect_claimable(self, token: Option<u64>) -> bool {
        &&& self.reconnect_free()
        &&& match token {
            Some(t) => self.producer.bindings.contains((t, self.epoch())),
            None => self.producer.source_fence.allows_global(),
        }
        &&& !self.close_outstanding()
    }

    pub open spec fn reconnect_marked(self) -> RuntimeView {
        self.with_flags(RuntimeFlags { reconnect_pending: true, ..self.flags })
    }

    pub open spec fn reconnect_claimed(self, token: Option<u64>) -> RuntimeView {
        if self.reconnect_claimable(token) {
            let marked = self.reconnect_marked();
            if self.producer.owner is Some {
                marked.with_producer(self.producer.disowned())
            } else {
                marked
            }
        } else {
            self
        }
    }

    /// A claimed reconnect begins its attempt under a fresh retry token.
    pub open spec fn retry_admitted(self, at: UtcInstant) -> (RuntimeView, Option<u64>) {
        if self.flags.stopping || !self.flags.reconnect_pending
            || self.counters.reconnect_attempt_token == u64::MAX {
            (self, None)
        } else {
            let token = checked_next(self.counters.reconnect_attempt_token);
            let numbered = RuntimeView {
                counters: RuntimeCounters { reconnect_attempt_token: token, ..self.counters },
                ..self
            };
            let step = numbered.attempt_begun(Some(token), at);
            match step.1 {
                None => (step.0, None),
                Some(should_drain) => (
                    RuntimeView::followed((step.0, should_drain)).attempt_timers_cancelled(),
                    Some(token),
                ),
            }
        }
    }

    /// The retry is done: a reservation that nobody bound is closed.
    pub open spec fn retry_finished(self, token: u64) -> RuntimeView {
        let current = self.counters.reconnect_attempt_token == token;
        let unbound = self.producer.attempt matches AttemptAdmissionState::Reserved {
            reconnect_token,
            ..
        } && reconnect_token == Some(token);
        RuntimeView {
            flags: RuntimeFlags {
                reconnect_pending: false,
                reconnect_add_pending: self.flags.reconnect_add_pending && !current,
                ..self.flags
            },
            producer: if current && unbound {
                ProducerView {
                    attempt: AttemptAdmissionState::Closed { epoch: self.epoch() },
                    ..self.producer.scope_closed()
                }
            } else {
                self.producer
            },
            ..self
        }
    }
}

impl SharedRuntime {
    /// Registers the connection attempt that is under way. A new one replaces
    /// the one before: at most one is under way.
    pub fn record_pending_connection(&mut self, entity: u64, attempt_token: u64)
        requires
            old(self)@.wf(),
        ensures
            final(self)@ == old(self)@.connection_registered(entity, attempt_token),
            final(self)@.wf(),
    {
        self.connection.pending_connection = Some(
            PendingConnectionAttempt {
                entity,
                attempt_token,
                epoch: self.writer.connection_epoch,
                ordinal: self.counters.retry_ordinal,
            },
        );
    }

    /// Takes the registered attempt if it is of this epoch and retry; a stale
    /// deadline leaves a newer registration alone.
    pub fn take_pending_connection(&mut self, epoch: u64, ordinal: u64) -> (taken: Option<
        (u64, u64),
    >)
        requires
            old(self)@.wf(),
        ensures
            taken == old(self)@.pending_match(epoch, ordinal),
            final(self)@ == old(self)@.connection_taken(epoch, ordinal),
            final(self)@.wf(),
    {
        match self.connection.pending_connection {
            Some(pending) => if pending.epoch == epoch && pending.ordinal == ordinal {
                self.connection.pending_connection = None;
                Some((pending.entity, pending.attempt_token))
            } else {
                None
            },
            None => None,
        }
    }

    /// Claims the reconnect of an attempt that never got a client. The claim is
    /// shared with every other way to claim: the first one wins.
    pub fn claim_pre_init_reconnect(&mut self) -> (claimed: bool)
        requires
            old(self)@.wf(),
        ensures
            claimed == old(self)@.reconnect_free(),
            final(self)@ == (if claimed {
                old(self)@.reconnect_marked()
            } else {
                old(self)@
            }),
            final(self)@.wf(),
    {
        if self.flags.stopping || self.flags.reconnect_pending {
            return false;
        }
        self.put_flags(RuntimeFlags { reconnect_pending: true, ..self.flags });
        true
    }

    fn is_reconnect_claimable(&self, attempt_token: Option<u64>) -> (r: bool)
        ensures
            r == self@.reconnect_claimable(attempt_token),
    {
        if self.flags.stopping || self.flags.reconnect_pending {
            return false;
        }
        let admitted = match attempt_token {
            Some(token) => self.producer.source_token_bindings.matches(
                token,
                self.writer.connection_epoch,
            ),
            None => self.producer.source_fence.allows_unstamped_global(),
        };
        let retry_reserved = match self.producer.attempt {
            AttemptAdmissionState::Reserved { reconnect_token, .. } => reconnect_token.is_some(),
            _ => false,
        };
        admitted && !(!self.flags.disconnect_reported && (self.producer.owner.is_some()
            || retry_reserved))
    }

    /// Claims the reconnect for a disconnect that names no entity, and ends the
    /// current ownership with it.
    pub fn claim_reconnect_with_token(&mut self, attempt_token: Option<u64>) -> (claimed: bool)
        requires
            old(self)@.wf(),
        ensures
            claimed == old(self)@.reconnect_claimable(attempt_token),
            final(self)@ == old(self)@.reconnect_claimed(attempt_token),
            final(self)@.wf(),
    {
        if !self.is_reconnect_claimable(attempt_token) {
            return false;
        }
        self.put_flags(RuntimeFlags { reconnect_pending: true, ..self.flags });
        let _ = self.deactivate_current_entity_producer_owner();
        true
    }

    fn next_retry_token(&mut self) -> (token: Option<u64>)
        requires
            old(self)@.wf(),
        ensures
            token == (if old(self)@.counters.reconnect_attempt_token == u64::MAX {
                None
            } else {
                Some(checked_next(old(self)@.counters.reconnect_attempt_token))
            }),
            final(self)@ == (RuntimeView {
                counters: RuntimeCounters {
                    reconnect_attempt_token: checked_next(
                        old(self)@.counters.reconnect_attempt_token,
                    ),
                    ..old(self)@.counters
                },
                ..old(self)@
            }),
            final(self)@.wf(),
    {
        checked_increment(&mut self.counters.reconnect_attempt_token)
    }

    /// Begins the attempt of a claimed reconnect and hands out its retry token.
    pub fn admit_reconnect_attempt(&mut self, at: UtcInstant) -> (token: Option<u64>)
        requires
            old(self)@.wf(),
        ensures
            (final(self)@, token) == old(self)@.retry_admitted(at),
            final(self)@.wf(),
    {
        if self.flags.stopping || !self.flags.reconnect_pending {
            return None;
        }
        match self.next_retry_token() {
            Some(token) => match self.begin_attempt(Some(token), at) {
                Some(should_drain) => {
                    if should_drain {
                        self.drain_events();
                    }
                    self.request_effect(Effect::CancelPhaseDeadlines);
                    self.request_effect(Effect::CancelStableResets);
                    Some(token)
                },
                None => None,
            },
            None => None,
        }
    }

    /// Tells whether the client of a retry may still be added.
    pub fn reconnect_add_is_allowed(&self, token: u64) -> (r: bool)
        ensures
            r == self@.retry_open(token),
    {
        !self.flags.stopping && self.flags.reconnect_add_pending
            && self.counters.reconnect_attempt_token == token
    }

    /// Ends a retry. If nobody bound its reservation, the reservation is closed.
    pub fn finish_reconnect_attempt(&mut self, token: u64)
        requires
            old(self)@.wf(),
        ensures
            final(self)@ == old(self)@.retry_finished(token),
            final(self)@.wf(),
    {
        let current = self.counters.reconnect_attempt_token == token;
        let unbound = match self.producer.attempt {
            AttemptAdmissionState::Reserved { reconnect_token, .. } => reconnect_token == Some(
                token,
            ),
            _ => false,
        };
        self.put_flags(
            RuntimeFlags {
                reconnect_pending: false,
                reconnect_add_pending: self.flags.reconnect_add_pending && !current,
                ..self.flags
            },
        );
        if current && unbound {
            self.close_reservation();
        }
    }

    fn close_reservation(&mut self)
        requires
            old(self)@.wf(),
            old(self)@.producer.attempt is Reserved,
        ensures
            final(self)@ == old(self)@.with_producer(
                ProducerView {
                    attempt: AttemptAdmissionState::Closed { epoch: old(self)@.epoch() },
                    ..old(self)@.producer.scope_closed()
                },
            ),
            final(self)@.wf(),
    {
        proof {
            reveal(ProducerView::wf);
            lemma_disowned_wf(
                self@.producer,
                AttemptAdmissionState::Closed { epoch: self@.epoch() },
            );
        }
        self.producer.attempt = AttemptAdmissionState::Closed {
            epoch: self.writer.connection_epoch,
        };
        self.producer.deactivate_scope();
    }

    /// The identity that snapshots are stamped with.
    pub fn context(&self) -> (r: (String, u64, AttemptId))
        ensures
            r.0 == self@.writer.process_session_id,
            r.1 == self@.epoch(),
            r.2 == self@.writer.connection_attempt_id,
    {
        (
            self.writer.process_session_id.clone(),
            self.writer.connection_epoch,
            self.writer.connection_attempt_id,
        )
    }
}

/// A connection that is under way is found under its own epoch and retry number,
/// and under no other.
pub proof fn law_pending_connections_are_found(runtime: RuntimeView, epoch: u64, ordinal: u64)
    ensures
        runtime.pending_match(epoch, ordinal) is Some <==> {
            &&& runtime.connection.pending_connection matches Some(pending)
            &&& pending.epoch == epoch
            &&& pending.ordinal == ordinal
        },
        runtime.pending_match(epoch, ordinal) matches Some((entity, token)) ==> {
            &&& runtime.connection.pending_connection matches Some(pending)
            &&& entity == pending.entity
            &&& token == pending.attempt_token
        },
{
}

/// A disconnect claims the reconnect exactly if nobody has claimed it, no stop has
/// begun, it is provably of the current attempt, and no close of that attempt is
/// still to come: the end was reported, or nobody owns the attempt and it is no
/// retry that still waits for its client.
pub proof fn law_who_claims_the_reconnect(runtime: RuntimeView, token: Option<u64>)
    ensures
        runtime.reconnect_claimable(token) <==> {
            &&& !runtime.flags.stopping
            &&& !runtime.flags.reconnect_pending
            &&& match token {
                Some(token) => runtime.producer.bindings.contains(
                    (token, runtime.writer.connection_epoch),
                ),
                None => !runtime.producer.source_fence.ambiguous
                    && runtime.producer.source_fence.pending_rebind_entity is None,
            }
            &&& runtime.flags.disconnect_reported || (runtime.producer.owner is None && (
            runtime.producer.attempt is Reserved
                ==> runtime.producer.attempt->Reserved_reconnect_token is None))
        },
{
}

/// Who claims the reconnect has it, and whoever owned the attempt owns it no more.
pub proof fn law_a_claim_is_exclusive(
    runtime: RuntimeView,
    token: Option<u64>,
    other: Option<u64>,
)
    ensures
        !runtime.reconnect_claimable(token) ==> runtime.reconnect_claimed(token) == runtime,
        runtime.reconnect_claimable(token) ==> {
            let after = runtime.reconnect_claimed(token);
            &&& after.flags == (RuntimeFlags { reconnect_pending: true, ..runtime.flags })
            &&& after.producer.owner is None
            &&& after.connection == runtime.connection
            &&& !after.reconnect_claimable(other)
            &&& !after.reconnect_free()
        },
        runtime.reconnect_free() <==> !runtime.flags.stopping && !runtime.flags.reconnect_pending,
{
}

/// A claimed reconnect begins under the next retry token, if no stop was asked for
/// and there are numbers left; whoever has not claimed it begins nothing.
pub proof fn law_a_claimed_reconnect_begins(runtime: RuntimeView, at: UtcInstant)
    ensures
        ({
            let (after, token) = runtime.retry_admitted(at);
            let next = (runtime.counters.reconnect_attempt_token + 1) as u64;
            let open = runtime.flags.reconnect_pending && !runtime.flags.stopping
                && runtime.counters.reconnect_attempt_token < u64::MAX;
            let begins = open && !runtime.flags.stop_requested && runtime.writer.connection_epoch
                < u64::MAX && runtime.counters.retry_ordinal < u64::MAX;
            &&& !open ==> after == runtime
            &&& token == (if begins {
                Some(next)
            } else {
                None
            })
            &&& open ==> after.counters.reconnect_attempt_token == next
            &&& begins ==> {
                &&& after.writer.connection_epoch == runtime.writer.connection_epoch + 1
                &&& after.counters.retry_ordinal == runtime.counters.retry_ordinal + 1
                &&& after.flags.reconnect_add_pending
                &&& after.connection.state is Connecting
                &&& after.producer.attempt == (AttemptAdmissionState::Reserved {
                    epoch: after.writer.connection_epoch,
                    reconnect_token: Some(next),
                    join_started_epoch: None,
                    attempt_token: None,
                })
            }
        }),
{
    reveal(RuntimeView::attempt_begun);
    reveal(RuntimeView::attempt_cleaned);
    reveal(RuntimeView::attempt_reserved);
    reveal(RuntimeView::attempt_announced);
    let next = checked_next(runtime.counters.reconnect_attempt_token);
    let numbered = RuntimeView {
        counters: RuntimeCounters { reconnect_attempt_token: next, ..runtime.counters },
        ..runtime
    };
    let step = numbered.attempt_begun(Some(next), at);
    if step.1 is Some {
        reveal(RuntimeView::dispatched);
        crate::guarantees::lemma_followed_frame((step.0, step.1->0));
    }
}

/// When a retry is over, the reconnect is free again. If it is the current one, it
/// is no longer being added, and a reservation that nobody has bound is closed; a
/// later retry is left alone.
pub proof fn law_a_finished_retry_frees_the_reconnect(runtime: RuntimeView, token: u64)
    ensures
        ({
            let after = runtime.retry_finished(token);
            let current = runtime.counters.reconnect_attempt_token == token;
            let unbound = runtime.producer.attempt is Reserved
                && runtime.producer.attempt->Reserved_reconnect_token == Some(token);
            &&& !after.flags.reconnect_pending
            &&& current ==> !after.flags.reconnect_add_pending
            &&& !current ==> after.flags.reconnect_add_pending
                == runtime.flags.reconnect_add_pending
            &&& current && unbound ==> after.producer.attempt == (AttemptAdmissionState::Closed {
                epoch: runtime.writer.connection_epoch,
            }) && after.producer.owner == runtime.producer.owner
                && after.producer.scope_generation != runtime.producer.scope_generation
            &&& !(current && unbound) ==> after.producer == runtime.producer
            &&& after == (RuntimeView {
                flags: after.flags,
                producer: after.producer,
                ..runtime
            })
            &&& after.flags == (RuntimeFlags {
                reconnect_pending: false,
                reconnect_add_pending: after.flags.reconnect_add_pending,
                ..runtime.flags
            })
        }),
{
}

/// A connection attempt that is registered is found again by the epoch and the
/// retry it was made in, once, and by no others; a new one takes the place of the
/// one before.
pub proof fn law_a_registered_connection_is_taken_once(
    runtime: RuntimeView,
    entity: u64,
    attempt_token: u64,
    epoch: u64,
    ordinal: u64,
)
    ensures
        ({
            let registered = runtime.connection_registered(entity, attempt_token);
            let taken = registered.connection_taken(epoch, ordinal);
            let own = epoch == runtime.writer.connection_epoch && ordinal
                == runtime.counters.retry_ordinal;
            &&& own ==> registered.pending_match(epoch, ordinal) == Some((entity, attempt_token))
            &&& own ==> taken.connection.pending_connection is None
            &&& own ==> taken.pending_match(epoch, ordinal) is None
            &&& !own ==> registered.pending_match(epoch, ordinal) is None
            &&& !own ==> taken == registered
            &&& taken == (RuntimeView { connection: taken.connection, ..runtime })
        }),
{
}

/// The client of a retry may be added only for the retry under way, and not once
/// the runtime stops.
pub proof fn law_when_a_client_may_be_added(runtime: RuntimeView, token: u64)
    ensures
        runtime.retry_open(token) <==> {
            &&& !runtime.flags.stopping
            &&& runtime.flags.reconnect_add_pending
            &&& runtime.counters.reconnect_attempt_token == token
        },
{
}

} // verus!
