//! Reserving, joining, binding and repeating connection attempts.

use std::sync::Arc;

use vstd::prelude::*;

use crate::config::{checked_increment, checked_next, PhaseDeadlineToken, TransportPhase};
use crate::contract::{
    AttemptId, BackendEventPayload, BackendLifecyclePayload, BackendState, FactSource,
};
use crate::events::lemma_dispatched_wf;
use crate::lanes::successor;
use crate::ownership::{lemma_disowned_wf, lemma_owned_wf};
use crate::state::{
    bindable, bound_pairs, bound_up_to, next_number, AttemptAdmissionState, ConnectionState,
    Effect, PendingConnectionAttempt, ProducerView, RuntimeCounters, RuntimeFlags, RuntimeView,
    SharedRuntime,
};
use crate::time::UtcInstant;
use crate::timers::{attempt_shown, shown_attempt};

verus! {

impl RuntimeView {
    /// A new attempt may begin: no stop, and a retry that is still the current one.
    pub open spec fn attempt_allowed(self, reconnect_token: Option<u64>) -> bool {
        &&& !self.flags.stopping
        &&& !self.flags.stop_requested
        &&& (reconnect_token matches Some(token) ==> self.counters.reconnect_attempt_token
            == token)
    }

    /// There is a next epoch and a next retry number.
    pub open spec fn attempt_numbered(self) -> bool {
        self.epoch() < u64::MAX && self.counters.retry_ordinal < u64::MAX
    }

    /// The retry is marked as being added.
    pub open spec fn add_marked(self, reconnect_token: Option<u64>) -> RuntimeView {
        if reconnect_token is Some {
            self.with_flags(RuntimeFlags { reconnect_add_pending: true, ..self.flags })
        } else {
            self
        }
    }

    /// Everything that the last attempt left behind is withdrawn.
    #[verifier::opaque]
    pub open spec fn attempt_cleaned(self) -> RuntimeView {
        RuntimeView {
            flags: RuntimeFlags {
                disconnect_reported: false,
                stopped_reported: false,
                faulted_reported: false,
                shutdown_requested: false,
                dispatch_cancelled: false,
                ..self.flags
            },
            counters: RuntimeCounters {
                phase_generation: checked_next(self.counters.phase_generation),
                stable_generation: checked_next(self.counters.stable_generation),
                ..self.counters
            },
            connection: ConnectionState {
                active_client: None,
                stop_reason: None,
                last_close: None,
                last_failure: None,
                ..self.connection
            },
            producer: ProducerView {
                source_fence: self.producer.source_fence.attempted(),
                attempt: AttemptAdmissionState::NotStarted,
                pending_connection_failure: None,
                ..self.producer.disowned()
            },
            ..self
        }.observations_cleared()
    }

    /// The next attempt has its epoch, its retry number and its reservation.
    #[verifier::opaque]
    pub open spec fn attempt_reserved(self, reconnect_token: Option<u64>) -> RuntimeView {
        let epoch = (self.epoch() + 1) as u64;
        RuntimeView {
            counters: RuntimeCounters {
                lifecycle_revision: successor(self.counters.lifecycle_revision),
                retry_ordinal: (self.counters.retry_ordinal + 1) as u64,
                ..self.counters
            },
            writer: self.writer.attempted(epoch),
            producer: ProducerView {
                attempt: AttemptAdmissionState::Reserved {
                    epoch,
                    reconnect_token,
                    join_started_epoch: None,
                    attempt_token: None,
                },
                ..self.producer
            },
            connection: ConnectionState {
                state: BackendState::Connecting {
                    epoch,
                    attempt_id: AttemptId { epoch },
                    attempt: shown_attempt((self.counters.retry_ordinal + 1) as u64),
                },
                ..self.connection
            },
            ..self
        }
    }

    /// The reservation is announced.
    #[verifier::opaque]
    pub open spec fn attempt_announced(self, at: UtcInstant) -> (RuntimeView, bool) {
        let event = Arc::new(
            self.writer.event(
                FactSource::Commanded,
                BackendEventPayload::Lifecycle(
                    BackendLifecyclePayload::ConnectionRequested {
                        attempt: shown_attempt(self.counters.retry_ordinal),
                    },
                ),
                at,
            ),
        );
        RuntimeView { writer: self.writer.advanced(), ..self }.dispatched(event)
    }

    /// A new attempt, if it may begin. Also tells whether the caller has to drain.
    #[verifier::opaque]
    pub open spec fn attempt_begun(self, reconnect_token: Option<u64>, at: UtcInstant) -> (
        RuntimeView,
        Option<bool>,
    ) {
        if !self.attempt_allowed(reconnect_token) {
            (self, None)
        } else if !self.attempt_numbered() {
            (self.add_marked(reconnect_token), None)
        } else {
            let step = self.add_marked(reconnect_token).attempt_cleaned().attempt_reserved(
                reconnect_token,
            ).attempt_announced(at);
            (step.0, Some(step.1))
        }
    }

    /// Running timers of the attempt before are cancelled.
    pub open spec fn attempt_timers_cancelled(self) -> RuntimeView {
        self.with_effect(Effect::CancelPhaseDeadlines).with_effect(Effect::CancelStableResets)
    }

    pub open spec fn connection_attempted(self, at: UtcInstant) -> RuntimeView {
        let step = self.attempt_begun(None, at);
        match step.1 {
            Some(should_drain) => Self::followed(
                (step.0, should_drain),
            ).attempt_timers_cancelled(),
            None => step.0,
        }
    }

    /// A start of joining fits the reservation.
    pub open spec fn join_fits(self, source_epoch: u64, token: Option<u64>) -> bool {
        &&& self.epoch() == source_epoch
        &&& (token is None ==> self.producer.source_fence.allows_global())
        &&& self.producer.attempt matches AttemptAdmissionState::Reserved {
            epoch,
            reconnect_token,
            attempt_token,
            ..
        }
        &&& epoch == source_epoch
        &&& (attempt_token is Some ==> attempt_token == token)
        &&& (reconnect_token matches Some(retry) ==> self.counters.reconnect_attempt_token == retry
            && self.flags.reconnect_add_pending)
    }

    /// The reservation was joined before.
    pub open spec fn join_repeated(self, source_epoch: u64) -> bool {
        self.producer.attempt matches AttemptAdmissionState::Reserved { join_started_epoch, .. }
            && join_started_epoch == Some(source_epoch)
    }

    /// A start of joining is taken. Once taken, only exactly the same one is
    /// taken again: a token can neither be added nor exchanged later.
    pub open spec fn join_admitted(self, source_epoch: u64, token: Option<u64>) -> bool {
        self.join_fits(source_epoch, token) && if self.join_repeated(source_epoch) {
            self.producer.attempt->Reserved_attempt_token == token
        } else {
            token matches Some(t) ==> bindable(self.producer.bindings, t, source_epoch)
        }
    }

    pub open spec fn joined(self, source_epoch: u64, token: Option<u64>) -> RuntimeView {
        if self.join_admitted(source_epoch, token) && !self.join_repeated(source_epoch) {
            self.with_producer(
                ProducerView {
                    bindings: match token {
                        Some(t) => bound_pairs(self.producer.bindings, t, source_epoch),
                        None => self.producer.bindings,
                    },
                    attempt: AttemptAdmissionState::Reserved {
                        epoch: source_epoch,
                        reconnect_token: self.producer.attempt->Reserved_reconnect_token,
                        join_started_epoch: Some(source_epoch),
                        attempt_token: token,
                    },
                    ..self.producer
                },
            )
        } else {
            self
        }
    }

    /// A client may try to bind the current attempt.
    pub open spec fn bind_considered(
        self,
        entity: u64,
        retry: Option<u64>,
        init_path: bool,
        token: Option<u64>,
    ) -> bool {
        &&& !self.flags.stopping
        &&& (retry matches Some(r) ==> self.flags.reconnect_add_pending
            && self.counters.reconnect_attempt_token == r)
        &&& (token matches Some(t) ==> self.producer.bindings.contains((t, self.epoch())))
        &&& (init_path ==> match self.producer.attempt {
            AttemptAdmissionState::Reserved { reconnect_token, .. } => reconnect_token is None && (
            token is Some || self.producer.source_fence.allows(entity)),
            _ => true,
        })
    }

    /// The reservation is this client's to bind.
    pub open spec fn binds_reservation(
        self,
        entity: u64,
        retry: Option<u64>,
        init_path: bool,
        token: Option<u64>,
    ) -> bool {
        &&& self.bind_considered(entity, retry, init_path, token)
        &&& self.producer.attempt matches AttemptAdmissionState::Reserved {
            epoch,
            reconnect_token,
            attempt_token,
            ..
        }
        &&& epoch == self.epoch()
        &&& (init_path || reconnect_token == retry)
        &&& attempt_token == token
    }

    /// The attempt is bound to exactly this client already.
    pub open spec fn bound_already(
        self,
        entity: u64,
        retry: Option<u64>,
        init_path: bool,
        token: Option<u64>,
    ) -> bool {
        &&& self.bind_considered(entity, retry, init_path, token)
        &&& self.producer.attempt matches AttemptAdmissionState::Bound {
            epoch,
            entity: bound_entity,
            reconnect_token,
            attempt_token,
        }
        &&& epoch == self.epoch()
        &&& bound_entity == entity
        &&& (init_path || reconnect_token == retry)
        &&& attempt_token == token
    }

    /// The client owns the attempt.
    #[verifier::opaque]
    pub open spec fn attempt_owned(self, entity: u64, token: Option<u64>) -> RuntimeView {
        let cleared = self.observations_cleared();
        cleared.with_producer(
            ProducerView {
                attempt: AttemptAdmissionState::Bound {
                    epoch: self.epoch(),
                    entity,
                    reconnect_token: self.producer.attempt->Reserved_reconnect_token,
                    attempt_token: token,
                },
                ..cleared.producer.owned(entity, self.epoch())
            },
        )
    }

    /// The bound attempt starts to log in.
    #[verifier::opaque]
    pub open spec fn login_started(self, at: UtcInstant) -> (
        RuntimeView,
        bool,
        Option<PhaseDeadlineToken>,
    ) {
        let shown = self.with_state(
            BackendState::LoggingIn {
                epoch: self.epoch(),
                attempt_id: self.writer.connection_attempt_id,
                attempt: shown_attempt(self.counters.retry_ordinal),
            },
        ).stable_advanced();
        let step = shown.phase_advanced().enqueued(
            FactSource::ServerObserved,
            BackendEventPayload::Lifecycle(BackendLifecyclePayload::TransportConnected),
            at,
        );
        (step.0, step.1, shown.phase_token(TransportPhase::LoggingIn))
    }

    /// The attempt to bind: the runtime, and what follows if it succeeded.
    #[verifier::opaque]
    pub open spec fn attempt_bound(
        self,
        entity: u64,
        retry: Option<u64>,
        init_path: bool,
        token: Option<u64>,
        at: UtcInstant,
    ) -> (RuntimeView, Option<(bool, Option<PhaseDeadlineToken>)>) {
        if self.binds_reservation(entity, retry, init_path, token) {
            let owned = self.attempt_owned(entity, token);
            if owned.running() {
                let step = owned.login_started(at);
                (step.0, Some((step.1, step.2)))
            } else {
                (owned, Some((false, None)))
            }
        } else if self.bound_already(entity, retry, init_path, token) {
            (self, Some((false, None)))
        } else {
            (self, None)
        }
    }

    /// What follows a bound attempt: draining, and the login deadline.
    pub open spec fn bind_followed(
        self,
        should_drain: bool,
        token: Option<PhaseDeadlineToken>,
    ) -> RuntimeView {
        Self::followed((self, should_drain)).with_effect(
            Effect::CancelPhaseDeadlines,
        ).phase_deadline_started(token)
    }

    pub open spec fn attempt_bound_and_followed(
        self,
        entity: u64,
        retry: Option<u64>,
        init_path: bool,
        token: Option<u64>,
        at: UtcInstant,
    ) -> RuntimeView {
        let step = self.attempt_bound(entity, retry, init_path, token, at);
        match step.1 {
            Some((should_drain, deadline)) => step.0.bind_followed(should_drain, deadline),
            None => step.0,
        }
    }

    /// The attempt that an arriving client finds: one is begun if there is none.
    pub open spec fn init_attempt(self, at: UtcInstant) -> (RuntimeView, Option<bool>) {
        if self.producer.attempt == AttemptAdmissionState::NotStarted {
            self.attempt_begun(None, at)
        } else {
            (self, Some(false))
        }
    }

    /// An arriving client consumes the attempt that was reserved for it.
    pub open spec fn init_consumed(self, entity: u64, token: Option<u64>, at: UtcInstant) -> (
        RuntimeView,
        Option<u64>,
    ) {
        if self.flags.stopping {
            (self, None)
        } else {
            let first = self.init_attempt(at);
            match first.1 {
                None => (first.0, None),
                Some(drain_first) => {
                    let open = first.0.with_flags(
                        RuntimeFlags { disconnect_reported: false, ..first.0.flags },
                    );
                    let step = open.attempt_bound(entity, None, true, token, at);
                    match step.1 {
                        None => (step.0, None),
                        Some((drain_second, deadline)) => (
                            step.0.bind_followed(drain_first || drain_second, deadline),
                            Some(open.epoch()),
                        ),
                    }
                },
            }
        }
    }
}

impl SharedRuntime {
    fn clean_attempt(&mut self)
        requires
            old(self)@.wf(),
            !old(self)@.flags.stop_requested,
        ensures
            final(self)@ == old(self)@.attempt_cleaned(),
            final(self)@.wf(),
            final(self)@.epoch() == old(self)@.epoch(),
            final(self)@.counters.retry_ordinal == old(self)@.counters.retry_ordinal,
            final(self)@.producer.owner is None,
            final(self)@.producer.attempt is NotStarted,
    {
        reveal(RuntimeView::attempt_cleaned);
        let ghost before = self@.producer;
        self.flags.disconnect_reported = false;
        self.flags.stopped_reported = false;
        self.flags.faulted_reported = false;
        self.flags.shutdown_requested = false;
        self.flags.dispatch_cancelled = false;
        self.connection.active_client = None;
        self.connection.stop_reason = None;
        self.connection.last_close = None;
        self.connection.last_failure = None;
        let _ = checked_increment(&mut self.counters.phase_generation);
        let _ = checked_increment(&mut self.counters.stable_generation);
        self.producer.source_fence.begin_attempt();
        self.producer.owner = None;
        self.producer.attempt = AttemptAdmissionState::NotStarted;
        self.producer.pending_connection_failure = None;
        self.producer.deactivate_scope();
        proof {
            reveal(ProducerView::wf);
            lemma_disowned_wf(before, AttemptAdmissionState::NotStarted);
        }
        self.clear_observations();
    }

    fn reserve_attempt(&mut self, reconnect_token: Option<u64>)
        requires
            old(self)@.wf(),
            old(self)@.attempt_numbered(),
            old(self)@.producer.owner is None,
            old(self)@.producer.attempt is NotStarted,
        ensures
            final(self)@ == old(self)@.attempt_reserved(reconnect_token),
            final(self)@.wf(),
    {
        reveal(RuntimeView::attempt_reserved);
        let epoch: u64 = self.writer.connection_epoch + 1;
        let retry: u64 = self.counters.retry_ordinal + 1;
        self.counters.lifecycle_revision = next_number(self.counters.lifecycle_revision);
        self.counters.retry_ordinal = retry;
        self.writer.new_attempt(epoch);
        self.producer.attempt = AttemptAdmissionState::Reserved {
            epoch,
            reconnect_token,
            join_started_epoch: None,
            attempt_token: None,
        };
        self.connection.state = BackendState::Connecting {
            epoch,
            attempt_id: AttemptId { epoch },
            attempt: attempt_shown(retry),
        };
        proof {
            reveal(ProducerView::wf);
            reveal(bound_up_to);
        }
    }

    fn announce_attempt(&mut self, at: UtcInstant) -> (should_drain: bool)
        requires
            old(self)@.wf(),
        ensures
            (final(self)@, should_drain) == old(self)@.attempt_announced(at),
            final(self)@.wf(),
    {
        reveal(RuntimeView::attempt_announced);
        let attempt: u32 = attempt_shown(self.counters.retry_ordinal);
        let event = Arc::new(
            self.writer.emit_at(
                FactSource::Commanded,
                BackendEventPayload::Lifecycle(
                    BackendLifecyclePayload::ConnectionRequested { attempt },
                ),
                at,
            ),
        );
        self.enqueue_dispatch(event)
    }

    /// Begins an attempt, unless a stop was asked for, the retry is no longer
    /// the current one, or the numbers have run out.
    pub(crate) fn begin_attempt(&mut self, reconnect_token: Option<u64>, at: UtcInstant) -> (begun: Option<
        bool,
    >)
        requires
            old(self)@.wf(),
        ensures
            (final(self)@, begun) == old(self)@.attempt_begun(reconnect_token, at),
            final(self)@.wf(),
            begun is Some <==> old(self)@.attempt_allowed(reconnect_token)
                && old(self)@.attempt_numbered(),
    {
        reveal(RuntimeView::attempt_begun);
        if self.flags.stopping || self.flags.stop_requested {
            return None;
        }
        if let Some(token) = reconnect_token {
            if self.counters.reconnect_attempt_token != token {
                return None;
            }
            self.put_flags(RuntimeFlags { reconnect_add_pending: true, ..self.flags });
        }
        if self.writer.connection_epoch == u64::MAX || self.counters.retry_ordinal == u64::MAX {
            return None;
        }
        self.clean_attempt();
        self.reserve_attempt(reconnect_token);
        Some(self.announce_attempt(at))
    }

    /// Gives a connection attempt its identity, before any network work starts.
    pub fn begin_connection_attempt(&mut self, at: UtcInstant) -> (begun: bool)
        requires
            old(self)@.wf(),
        ensures
            begun == (old(self)@.attempt_allowed(None) && old(self)@.attempt_numbered()),
            final(self)@ == old(self)@.connection_attempted(at),
            final(self)@.wf(),
    {
        match self.begin_attempt(None, at) {
            Some(should_drain) => {
                if should_drain {
                    self.drain_events();
                }
                self.request_effect(Effect::CancelPhaseDeadlines);
                self.request_effect(Effect::CancelStableResets);
                true
            },
            None => false,
        }
    }

    fn bind_token(&mut self, token: u64) -> (bound: bool)
        requires
            old(self)@.wf(),
        ensures
            bound == bindable(old(self)@.producer.bindings, token, old(self)@.epoch()),
            final(self)@ == (if bound {
                old(self)@.with_producer(
                    ProducerView {
                        bindings: bound_pairs(
                            old(self)@.producer.bindings,
                            token,
                            old(self)@.epoch(),
                        ),
                        ..old(self)@.producer
                    },
                )
            } else {
                old(self)@
            }),
            final(self)@.wf(),
    {
        reveal(ProducerView::wf);
        reveal(bound_up_to);
        let epoch: u64 = self.writer.connection_epoch;
        self.producer.source_token_bindings.bind(token, epoch)
    }

    fn mark_joined(&mut self, reconnect_token: Option<u64>, attempt_token: Option<u64>)
        requires
            old(self)@.wf(),
            old(self)@.producer.attempt is Reserved,
        ensures
            final(self)@ == old(self)@.with_producer(
                ProducerView {
                    attempt: AttemptAdmissionState::Reserved {
                        epoch: old(self)@.epoch(),
                        reconnect_token,
                        join_started_epoch: Some(old(self)@.epoch()),
                        attempt_token,
                    },
                    ..old(self)@.producer
                },
            ),
            final(self)@.wf(),
    {
        reveal(ProducerView::wf);
        let epoch: u64 = self.writer.connection_epoch;
        self.producer.attempt = AttemptAdmissionState::Reserved {
            epoch,
            reconnect_token,
            join_started_epoch: Some(epoch),
            attempt_token,
        };
    }

    fn take_join(&mut self, reconnect_token: Option<u64>, attempt_token: Option<u64>) -> (taken:
        bool)
        requires
            old(self)@.wf(),
            old(self)@.producer.attempt is Reserved,
        ensures
            taken == (attempt_token matches Some(t) ==> bindable(
                old(self)@.producer.bindings,
                t,
                old(self)@.epoch(),
            )),
            final(self)@ == (if taken {
                old(self)@.with_producer(
                    ProducerView {
                        bindings: match attempt_token {
                            Some(t) => bound_pairs(
                                old(self)@.producer.bindings,
                                t,
                                old(self)@.epoch(),
                            ),
                            None => old(self)@.producer.bindings,
                        },
                        attempt: AttemptAdmissionState::Reserved {
                            epoch: old(self)@.epoch(),
                            reconnect_token,
                            join_started_epoch: Some(old(self)@.epoch()),
                            attempt_token,
                        },
                        ..old(self)@.producer
                    },
                )
            } else {
                old(self)@
            }),
            final(self)@.wf(),
    {
        if let Some(token) = attempt_token {
            if !self.bind_token(token) {
                return false;
            }
        }
        self.mark_joined(reconnect_token, attempt_token);
        true
    }

    fn fits_join(&self, source_epoch: u64, attempt_token: Option<u64>) -> (r: bool)
        ensures
            r == self@.join_fits(source_epoch, attempt_token),
    {
        if self.writer.connection_epoch != source_epoch {
            return false;
        }
        if attempt_token.is_none() && !self.producer.source_fence.allows_unstamped_global() {
            return false;
        }
        match self.producer.attempt {
            AttemptAdmissionState::Reserved {
                epoch,
                reconnect_token,
                attempt_token: reserved_token,
                ..
            } => {
                if epoch != source_epoch || (reserved_token.is_some() && reserved_token
                    != attempt_token) {
                    return false;
                }
                match reconnect_token {
                    Some(retry) => self.counters.reconnect_attempt_token == retry
                        && self.flags.reconnect_add_pending,
                    None => true,
                }
            },
            _ => false,
        }
    }

    /// Takes the start of joining: its token, if it has one, is bound to the
    /// reservation's epoch for good.
    pub fn admit_canonical_join_started_with_token(
        &mut self,
        source_epoch: u64,
        attempt_token: Option<u64>,
    ) -> (taken: bool)
        requires
            old(self)@.wf(),
        ensures
            taken == old(self)@.join_admitted(source_epoch, attempt_token),
            final(self)@ == old(self)@.joined(source_epoch, attempt_token),
            final(self)@.wf(),
    {
        if !self.fits_join(source_epoch, attempt_token) {
            return false;
        }
        match self.producer.attempt {
            AttemptAdmissionState::Reserved {
                join_started_epoch,
                attempt_token: reserved_token,
                reconnect_token,
                ..
            } => {
                if join_started_epoch == Some(source_epoch) {
                    reserved_token == attempt_token
                } else {
                    self.take_join(reconnect_token, attempt_token)
                }
            },
            _ => false,
        }
    }

    fn own_attempt(
        &mut self,
        entity: u64,
        reconnect_token: Option<u64>,
        attempt_token: Option<u64>,
    )
        requires
            old(self)@.wf(),
            old(self)@.producer.attempt is Reserved,
            reconnect_token == old(self)@.producer.attempt->Reserved_reconnect_token,
        ensures
            final(self)@ == old(self)@.attempt_owned(entity, attempt_token),
            final(self)@.wf(),
            final(self)@.running() == old(self)@.running(),
    {
        reveal(RuntimeView::attempt_owned);
        self.clear_observations();
        let epoch: u64 = self.writer.connection_epoch;
        proof {
            lemma_owned_wf(self@.producer, entity, epoch, reconnect_token, attempt_token);
        }
        self.producer.source_fence.bind(entity);
        self.producer.owner = Some((entity, epoch));
        self.producer.reset_scope(epoch);
        self.producer.attempt = AttemptAdmissionState::Bound {
            epoch,
            entity,
            reconnect_token,
            attempt_token,
        };
    }

    fn start_login(&mut self, at: UtcInstant) -> (r: (bool, Option<PhaseDeadlineToken>))
        requires
            old(self)@.wf(),
        ensures
            (final(self)@, r.0, r.1) == old(self)@.login_started(at),
            final(self)@.wf(),
    {
        reveal(RuntimeView::login_started);
        let attempt: u32 = attempt_shown(self.counters.retry_ordinal);
        self.connection.state = BackendState::LoggingIn {
            epoch: self.writer.connection_epoch,
            attempt_id: self.writer.connection_attempt_id,
            attempt,
        };
        self.invalidate_stable_reset();
        let deadline = self.arm_phase_deadline(TransportPhase::LoggingIn);
        let should_drain = self.enqueue_event(
            FactSource::ServerObserved,
            BackendEventPayload::Lifecycle(BackendLifecyclePayload::TransportConnected),
            at,
        );
        (should_drain, deadline)
    }

    /// Tells whether a client may try to bind the current attempt.
    fn considers_bind(
        &self,
        entity: u64,
        retry: Option<u64>,
        init_path: bool,
        attempt_token: Option<u64>,
    ) -> (r: bool)
        ensures
            r == self@.bind_considered(entity, retry, init_path, attempt_token),
    {
        if self.flags.stopping {
            return false;
        }
        if let Some(token) = retry {
            if !self.flags.reconnect_add_pending || self.counters.reconnect_attempt_token
                != token {
                return false;
            }
        }
        if let Some(token) = attempt_token {
            if !self.producer.source_token_bindings.matches(token, self.writer.connection_epoch) {
                return false;
            }
        }
        if init_path {
            match self.producer.attempt {
                AttemptAdmissionState::Reserved { reconnect_token, .. } => {
                    if reconnect_token.is_some() {
                        return false;
                    }
                    if attempt_token.is_none() && !self.producer.source_fence.allows_unstamped(
                        entity,
                    ) {
                        return false;
                    }
                },
                _ => {},
            }
        }
        true
    }

    /// Binds the reserved attempt to a client. A retry is bound only by the
    /// client that the retry returned: an arriving client carries no proof of
    /// which retry it belongs to.
    fn bind_attempt(
        &mut self,
        entity: u64,
        retry: Option<u64>,
        init_path: bool,
        attempt_token: Option<u64>,
        at: UtcInstant,
    ) -> (bound: Option<(bool, Option<PhaseDeadlineToken>)>)
        requires
            old(self)@.wf(),
        ensures
            (final(self)@, bound) == old(self)@.attempt_bound(
                entity,
                retry,
                init_path,
                attempt_token,
                at,
            ),
            final(self)@.wf(),
            bound is Some <==> old(self)@.binds_reservation(entity, retry, init_path, attempt_token)
                || old(self)@.bound_already(entity, retry, init_path, attempt_token),
    {
        reveal(RuntimeView::attempt_bound);
        if !self.considers_bind(entity, retry, init_path, attempt_token) {
            return None;
        }
        let current: u64 = self.writer.connection_epoch;
        match self.producer.attempt {
            AttemptAdmissionState::Reserved {
                epoch,
                reconnect_token,
                attempt_token: reserved,
                ..
            } => {
                if epoch != current || !(init_path || reconnect_token == retry) || reserved
                    != attempt_token {
                    return None;
                }
                self.own_attempt(entity, reconnect_token, attempt_token);
                if !self.command_execution_allowed() {
                    return Some((false, None));
                }
                Some(self.start_login(at))
            },
            AttemptAdmissionState::Bound {
                epoch,
                entity: bound_entity,
                reconnect_token,
                attempt_token: bound,
            } => {
                if epoch == current && bound_entity == entity && (init_path || reconnect_token
                    == retry) && bound == attempt_token {
                    Some((false, None))
                } else {
                    None
                }
            },
            _ => None,
        }
    }

    fn follow_bind(&mut self, should_drain: bool, deadline: Option<PhaseDeadlineToken>)
        requires
            old(self)@.wf(),
        ensures
            final(self)@ == old(self)@.bind_followed(should_drain, deadline),
            final(self)@.wf(),
    {
        if should_drain {
            self.drain_events();
        }
        self.request_effect(Effect::CancelPhaseDeadlines);
        self.start_phase_deadline(deadline);
    }

    /// Binds the reserved attempt to a client and starts the login deadline.
    pub fn bind_reserved_attempt(
        &mut self,
        entity: u64,
        expected_reconnect_token: Option<u64>,
        init_path: bool,
        expected_attempt_token: Option<u64>,
        at: UtcInstant,
    ) -> (epoch: Option<u64>)
        requires
            old(self)@.wf(),
        ensures
            epoch == (if old(self)@.binds_reservation(
                entity,
                expected_reconnect_token,
                init_path,
                expected_attempt_token,
            ) || old(self)@.bound_already(
                entity,
                expected_reconnect_token,
                init_path,
                expected_attempt_token,
            ) {
                Some(old(self)@.epoch())
            } else {
                None
            }),
            final(self)@ == old(self)@.attempt_bound_and_followed(
                entity,
                expected_reconnect_token,
                init_path,
                expected_attempt_token,
                at,
            ),
            final(self)@.wf(),
    {
        let current: u64 = self.writer.connection_epoch;
        match self.bind_attempt(
            entity,
            expected_reconnect_token,
            init_path,
            expected_attempt_token,
            at,
        ) {
            Some((should_drain, deadline)) => {
                self.follow_bind(should_drain, deadline);
                Some(current)
            },
            None => None,
        }
    }

    fn find_attempt(&mut self, at: UtcInstant) -> (found: Option<bool>)
        requires
            old(self)@.wf(),
        ensures
            (final(self)@, found) == old(self)@.init_attempt(at),
            final(self)@.wf(),
    {
        match self.producer.attempt {
            AttemptAdmissionState::NotStarted => self.begin_attempt(None, at),
            _ => Some(false),
        }
    }

    /// Lets an arriving client consume the attempt that was reserved for it. If
    /// none was, one is begun first, so that a request always precedes it.
    pub fn consume_attempt_for_transport_init_and_bind_with_token(
        &mut self,
        entity: u64,
        attempt_token: Option<u64>,
        at: UtcInstant,
    ) -> (epoch: Option<u64>)
        requires
            old(self)@.wf(),
        ensures
            (final(self)@, epoch) == old(self)@.init_consumed(entity, attempt_token, at),
            final(self)@.wf(),
    {
        if self.flags.stopping {
            return None;
        }
        let drain_first = match self.find_attempt(at) {
            Some(should_drain) => should_drain,
            None => {
                return None;
            },
        };
        self.put_flags(RuntimeFlags { disconnect_reported: false, ..self.flags });
        let current: u64 = self.writer.connection_epoch;
        match self.bind_attempt(entity, None, true, attempt_token, at) {
            Some((drain_second, deadline)) => {
                self.follow_bind(drain_first || drain_second, deadline);
                Some(current)
            },
            None => None,
        }
    }

    /// Binds the client that a retry returned.
    pub fn bind_reconnect_return_with_token(
        &mut self,
        token: u64,
        entity: u64,
        attempt_token: Option<u64>,
        at: UtcInstant,
    ) -> (epoch: Option<u64>)
        requires
            old(self)@.wf(),
        ensures
            epoch == (if old(self)@.binds_reservation(entity, Some(token), false, attempt_token)
                || old(self)@.bound_already(entity, Some(token), false, attempt_token) {
                Some(old(self)@.epoch())
            } else {
                None
            }),
            final(self)@ == old(self)@.attempt_bound_and_followed(
                entity,
                Some(token),
                false,
                attempt_token,
                at,
            ),
            final(self)@.wf(),
    {
        self.bind_reserved_attempt(entity, Some(token), false, attempt_token, at)
    }
}

/// A new attempt begins exactly if no stop was asked for, there is a next epoch
/// and a next retry number and, for a retry, the retry is still the current one.
pub proof fn law_when_an_attempt_may_begin(
    runtime: RuntimeView,
    reconnect_token: Option<u64>,
    at: UtcInstant,
)
    ensures
        ({
            let allowed = !runtime.flags.stopping && !runtime.flags.stop_requested && (
            reconnect_token is None || reconnect_token == Some(
                runtime.counters.reconnect_attempt_token,
            ));
            let numbered = runtime.writer.connection_epoch < u64::MAX
                && runtime.counters.retry_ordinal < u64::MAX;
            let (after, begun) = runtime.attempt_begun(reconnect_token, at);
            &&& begun is Some <==> allowed && numbered
            &&& !allowed ==> after == runtime
            &&& allowed && !numbered ==> after == (RuntimeView {
                flags: RuntimeFlags {
                    reconnect_add_pending: runtime.flags.reconnect_add_pending
                        || reconnect_token is Some,
                    ..runtime.flags
                },
                ..runtime
            })
        }),
{
    reveal(RuntimeView::attempt_begun);
}

/// A retry that begins is marked as being added, and its reservation is for it.
pub proof fn law_a_retry_is_marked_as_being_added(
    runtime: RuntimeView,
    token: u64,
    at: UtcInstant,
)
    requires
        !runtime.flags.stopping,
        !runtime.flags.stop_requested,
        runtime.counters.reconnect_attempt_token == token,
        runtime.writer.connection_epoch < u64::MAX,
        runtime.counters.retry_ordinal < u64::MAX,
    ensures
        ({
            let after = runtime.attempt_begun(Some(token), at).0;
            &&& after.flags.reconnect_add_pending
            &&& after.counters.reconnect_attempt_token == token
            &&& after.counters.retry_ordinal == runtime.counters.retry_ordinal + 1
            &&& after.producer.attempt == (AttemptAdmissionState::Reserved {
                epoch: (runtime.writer.connection_epoch + 1) as u64,
                reconnect_token: Some(token),
                join_started_epoch: None,
                attempt_token: None,
            })
        }),
{
    reveal(RuntimeView::attempt_begun);
    reveal(RuntimeView::attempt_cleaned);
    reveal(RuntimeView::attempt_reserved);
    reveal(RuntimeView::attempt_announced);
    reveal(RuntimeView::dispatched);
}

/// Joining is taken exactly for the reservation of the current epoch. A retry has
/// to be the one that is being added. A token has to be the reserved one, if one
/// is, and free or bound to this epoch; joining without a token is taken where no
/// earlier attempt can be meant. What was joined before is taken again only under
/// the same token.
pub proof fn law_when_joining_is_taken(runtime: RuntimeView, epoch: u64, token: Option<u64>)
    ensures
        runtime.join_admitted(epoch, token) <==> {
            &&& runtime.writer.connection_epoch == epoch
            &&& token is None ==> !runtime.producer.source_fence.ambiguous
                && runtime.producer.source_fence.pending_rebind_entity is None
            &&& runtime.producer.attempt matches AttemptAdmissionState::Reserved {
                epoch: reserved,
                reconnect_token,
                join_started_epoch,
                attempt_token,
            }
            &&& reserved == epoch
            &&& attempt_token is Some ==> attempt_token == token
            &&& reconnect_token is Some ==> runtime.flags.reconnect_add_pending
                && reconnect_token == Some(runtime.counters.reconnect_attempt_token)
            &&& join_started_epoch == Some(epoch) ==> attempt_token == token
            &&& join_started_epoch != Some(epoch) && token is Some ==> bindable(
                runtime.producer.bindings,
                token->0,
                epoch,
            )
        },
{
}

/// Joining binds the token to the epoch and notes both in the reservation; being
/// told again changes nothing, and being refused neither.
pub proof fn law_joining_is_noted(runtime: RuntimeView, epoch: u64, token: Option<u64>)
    ensures
        !runtime.join_admitted(epoch, token) ==> runtime.joined(epoch, token) == runtime,
        runtime.join_admitted(epoch, token) ==> {
            let after = runtime.joined(epoch, token);
            &&& after.producer.attempt matches AttemptAdmissionState::Reserved {
                epoch: reserved,
                reconnect_token,
                join_started_epoch,
                attempt_token,
            }
            &&& reserved == epoch
            &&& reconnect_token == runtime.producer.attempt->Reserved_reconnect_token
            &&& join_started_epoch == Some(epoch)
            &&& attempt_token == token
            &&& runtime.producer.attempt->Reserved_join_started_epoch != Some(epoch)
                && token is Some ==> after.producer.bindings.contains((token->0, epoch))
            &&& after.joined(epoch, token) == after
            &&& after == (RuntimeView {
                producer: ProducerView {
                    attempt: after.producer.attempt,
                    bindings: after.producer.bindings,
                    ..runtime.producer
                },
                ..runtime
            })
        },
{
    if runtime.join_admitted(epoch, token) && !runtime.join_repeated(epoch) {
        if let Some(t) = token {
            let before = runtime.producer.bindings;
            let after = bound_pairs(before, t, epoch);
            if !before.contains((t, epoch)) {
                assert(after[before.len() as int] == (t, epoch));
            }
        }
    }
}

/// A client may bind the attempt exactly while no stop has begun, under a token of
/// the current epoch if it has one, if the reservation of the current epoch was
/// made under just that token. A retry binds its own reservation while it is being
/// added. A client that arrives by itself binds a first attempt only and, without
/// a token, only if its entity is not that of the attempt before.
pub proof fn law_who_may_bind(
    runtime: RuntimeView,
    entity: u64,
    retry: Option<u64>,
    init_path: bool,
    token: Option<u64>,
)
    ensures
        runtime.binds_reservation(entity, retry, init_path, token) <==> {
            &&& !runtime.flags.stopping
            &&& retry is Some ==> runtime.flags.reconnect_add_pending && retry == Some(
                runtime.counters.reconnect_attempt_token,
            )
            &&& token is Some ==> runtime.producer.bindings.contains(
                (token->0, runtime.writer.connection_epoch),
            )
            &&& runtime.producer.attempt matches AttemptAdmissionState::Reserved {
                epoch,
                reconnect_token,
                attempt_token,
                ..
            }
            &&& epoch == runtime.writer.connection_epoch
            &&& attempt_token == token
            &&& if init_path {
                reconnect_token is None && (token is Some || (
                !runtime.producer.source_fence.ambiguous
                    && runtime.producer.source_fence.pending_rebind_entity != Some(entity)))
            } else {
                reconnect_token == retry
            }
        },
        runtime.bound_already(entity, retry, init_path, token) <==> {
            &&& !runtime.flags.stopping
            &&& retry is Some ==> runtime.flags.reconnect_add_pending && retry == Some(
                runtime.counters.reconnect_attempt_token,
            )
            &&& token is Some ==> runtime.producer.bindings.contains(
                (token->0, runtime.writer.connection_epoch),
            )
            &&& runtime.producer.attempt matches AttemptAdmissionState::Bound {
                epoch,
                entity: bound_entity,
                reconnect_token,
                attempt_token,
            }
            &&& epoch == runtime.writer.connection_epoch
            &&& bound_entity == entity
            &&& attempt_token == token
            &&& init_path || reconnect_token == retry
        },
{
}

/// A client that binds the attempt owns a fresh scope: nothing is published, the
/// fence knows its entity, and the attempt is noted as bound to it.
pub proof fn law_a_bound_attempt_starts_a_scope(
    runtime: RuntimeView,
    entity: u64,
    token: Option<u64>,
)
    requires
        runtime.producer.scope_generation < u64::MAX,
    ensures
        ({
            let after = runtime.attempt_owned(entity, token);
            &&& after.producer.owner == Some((entity, runtime.writer.connection_epoch))
            &&& after.producer.scope_generation == runtime.producer.scope_generation + 1
            &&& after.producer.source_fence.last_bound == Some(entity)
            &&& after.producer.source_fence.pending_rebind_entity is None
            &&& after.producer.source_fence.ambiguous <==> (
            runtime.producer.source_fence.pending_rebind_entity == Some(entity))
            &&& after.producer.bindings == runtime.producer.bindings
            &&& after.producer.attempt matches AttemptAdmissionState::Bound {
                epoch,
                entity: bound_entity,
                reconnect_token,
                attempt_token,
            }
            &&& epoch == runtime.writer.connection_epoch
            &&& bound_entity == entity
            &&& reconnect_token == runtime.producer.attempt->Reserved_reconnect_token
            &&& attempt_token == token
            &&& after.observation.snapshot is None
            &&& after.observation.tracked_entities.len() == 0
            &&& after.connection.reported_dimension is None
            &&& after.flags == runtime.flags
            &&& after.counters == runtime.counters
        }),
{
    reveal(RuntimeView::attempt_owned);
}

/// A client that arrives while the runtime stops gets nothing.
pub proof fn law_nobody_arrives_during_a_stop(
    runtime: RuntimeView,
    entity: u64,
    token: Option<u64>,
    at: UtcInstant,
)
    requires
        runtime.flags.stopping,
    ensures
        runtime.init_consumed(entity, token, at) == (runtime, None::<u64>),
{
}

/// A client that arrives gets the attempt that was reserved for it, and is told
/// its epoch; an end that was reported before is forgotten.
pub proof fn law_an_arriving_client_gets_its_attempt(
    runtime: RuntimeView,
    entity: u64,
    token: u64,
    at: UtcInstant,
)
    requires
        !runtime.flags.stopping,
        runtime.producer.bindings.contains((token, runtime.writer.connection_epoch)),
        runtime.producer.attempt matches AttemptAdmissionState::Reserved {
            epoch,
            reconnect_token,
            attempt_token,
            ..
        } && epoch == runtime.writer.connection_epoch && reconnect_token is None && attempt_token
            == Some(token),
    ensures
        ({
            let (after, epoch) = runtime.init_consumed(entity, Some(token), at);
            &&& epoch == Some(runtime.writer.connection_epoch)
            &&& after.producer.owner == Some((entity, runtime.writer.connection_epoch))
            &&& !after.flags.disconnect_reported
            &&& after.connection.state is LoggingIn
        }),
{
    reveal(RuntimeView::attempt_bound);
    reveal(RuntimeView::attempt_owned);
    reveal(RuntimeView::login_started);
    let open = runtime.with_flags(RuntimeFlags { disconnect_reported: false, ..runtime.flags });
    let owned = open.attempt_owned(entity, Some(token));
    let shown = owned.with_state(
        BackendState::LoggingIn {
            epoch: owned.epoch(),
            attempt_id: owned.writer.connection_attempt_id,
            attempt: shown_attempt(owned.counters.retry_ordinal),
        },
    ).stable_advanced();
    crate::guarantees::lemma_enqueued_frame(
        shown.phase_advanced(),
        FactSource::ServerObserved,
        BackendEventPayload::Lifecycle(BackendLifecyclePayload::TransportConnected),
        at,
    );
    let step = open.attempt_bound(entity, None, true, Some(token), at);
    crate::guarantees::lemma_followed_frame((step.0, (step.1->0).0));
}

/// A reserved attempt is of the next epoch and is the next retry. It waits for its
/// owner: nobody has joined it yet.
pub proof fn law_a_reserved_attempt_is_the_next(
    runtime: RuntimeView,
    reconnect_token: Option<u64>,
    epoch: u64,
)
    requires
        epoch == runtime.writer.connection_epoch + 1,
        runtime.counters.retry_ordinal < u64::MAX,
        runtime.counters.lifecycle_revision < u64::MAX,
    ensures
        ({
            let after = runtime.attempt_reserved(reconnect_token);
            &&& after.writer.connection_epoch == epoch
            &&& after.writer.connection_attempt_id.epoch == epoch
            &&& after.counters.retry_ordinal == runtime.counters.retry_ordinal + 1
            &&& after.counters.lifecycle_revision == runtime.counters.lifecycle_revision + 1
            &&& after.producer.attempt == (AttemptAdmissionState::Reserved {
                epoch,
                reconnect_token,
                join_started_epoch: None,
                attempt_token: None,
            })
            &&& after.producer.owner == runtime.producer.owner
        }),
{
    reveal(RuntimeView::attempt_reserved);
}

} // verus!
