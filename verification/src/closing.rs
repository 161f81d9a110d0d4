//! Why a connection ended, and what its end does to the runtime.

use vstd::prelude::*;
use vstd::string::*;

use crate::contract::{
    BackendClose, BackendCloseError, BackendEventPayload, BackendFailure, BackendFailureCode,
    BackendKick, BackendLifecyclePayload, CloseCode, EndReason, FactSource, FailureMessage,
};
use crate::config::{checked_increment, checked_next, TransportPhase};
use crate::ownership::lemma_disowned_wf;
use crate::state::{
    AttemptAdmissionState, ConnectionState, ProducerView, RuntimeCounters, RuntimeFlags,
    RuntimeView, SharedRuntime,
};
use crate::text::{ascii_lower_text, ascii_lowered, contains_run, has_run};
use crate::time::UtcInstant;

verus! {

/// What is known of the end of a connection.
#[derive(Debug, PartialEq, Eq)]
pub struct CloseEvidence {
    pub code: CloseCode,
    pub retryable: bool,
    pub deliberate: bool,
    pub kick: Option<BackendKick>,
    pub error: Option<BackendCloseError>,
    pub end_reason: Option<EndReason>,
    pub failure: Option<BackendFailure>,
}

/// How a reason is read.
#[derive(Clone, Copy, Debug, PartialEq, Eq, Structural)]
pub enum CloseClass {
    /// The runtime itself ended the connection.
    Deliberate,
    /// The server goes down and will be back.
    ServerShutdown,
    /// The server refuses this player.
    Refused(BackendFailureCode),
    /// The server gave a reason that says nothing known.
    Unclassified,
    /// The connection ended without a reason.
    Ended,
}

/// The words of a server that goes down.
pub open spec fn speaks_of_shutdown(words: Seq<char>) -> bool {
    has_run(words, "server_shutdown"@) || has_run(words, "server shutdown"@) || has_run(
        words,
        "server closed"@,
    ) || has_run(words, "server restarting"@)
}

/// The words of a server that refuses a player.
pub open spec fn speaks_of_refusal(words: Seq<char>) -> bool {
    has_run(words, "banned"@) || has_run(words, "whitelist"@) || has_run(
        words,
        "invalid session"@,
    ) || has_run(words, "authentication"@) || has_run(words, "not authenticated"@)
}

/// The refusal is about the player's identity.
pub open spec fn speaks_of_identity(words: Seq<char>) -> bool {
    has_run(words, "auth"@) || has_run(words, "session"@)
}

/// How a reason is read; case does not matter.
pub open spec fn close_class(reason: Option<Seq<char>>) -> CloseClass {
    match reason {
        None => CloseClass::Ended,
        Some(text) => {
            let words = ascii_lower_text(text);
            if text == "deliberate_stop"@ {
                CloseClass::Deliberate
            } else if speaks_of_shutdown(words) {
                CloseClass::ServerShutdown
            } else if speaks_of_refusal(words) {
                CloseClass::Refused(
                    if speaks_of_identity(words) {
                        BackendFailureCode::AuthenticationFailed
                    } else {
                        BackendFailureCode::PermissionDenied
                    },
                )
            } else {
                CloseClass::Unclassified
            }
        },
    }
}

/// Reads a reason.
pub fn classify_close(reason: &Option<String>) -> (class: CloseClass)
    ensures
        class == close_class(
            match *reason {
                Some(text) => Some(text@),
                None => None,
            },
        ),
{
    match reason {
        None => CloseClass::Ended,
        Some(text) => {
            if *text == "deliberate_stop".to_owned() {
                return CloseClass::Deliberate;
            }
            let words = ascii_lowered(text.as_str());
            if contains_run(&words, "server_shutdown") || contains_run(&words, "server shutdown")
                || contains_run(&words, "server closed") || contains_run(
                &words,
                "server restarting",
            ) {
                return CloseClass::ServerShutdown;
            }
            if contains_run(&words, "banned") || contains_run(&words, "whitelist") || contains_run(
                &words,
                "invalid session",
            ) || contains_run(&words, "authentication") || contains_run(
                &words,
                "not authenticated",
            ) {
                if contains_run(&words, "auth") || contains_run(&words, "session") {
                    return CloseClass::Refused(BackendFailureCode::AuthenticationFailed);
                }
                return CloseClass::Refused(BackendFailureCode::PermissionDenied);
            }
            CloseClass::Unclassified
        },
    }
}

/// A server that goes down is never taken for one that refuses the player, and
/// a reason that is given is never taken for a connection that just ended.
pub proof fn law_given_reasons_are_kicks(text: Seq<char>)
    requires
        text != "deliberate_stop"@,
    ensures
        close_class(Some(text)) != CloseClass::Ended,
        close_class(Some(text)) != CloseClass::Deliberate,
        speaks_of_shutdown(ascii_lower_text(text)) ==> close_class(Some(text))
            == CloseClass::ServerShutdown,
{
}

impl CloseEvidence {
    /// The runtime itself ended the connection.
    pub open spec fn deliberate_stop() -> CloseEvidence {
        CloseEvidence {
            code: CloseCode::DeliberateStop,
            retryable: false,
            deliberate: true,
            kick: None,
            error: None,
            end_reason: Some(EndReason::Code(CloseCode::DeliberateStop)),
            failure: None,
        }
    }

    /// The connection ended without a reason.
    pub open spec fn ended() -> CloseEvidence {
        CloseEvidence {
            code: CloseCode::ConnectionEnded,
            retryable: true,
            deliberate: false,
            kick: None,
            error: None,
            end_reason: None,
            failure: None,
        }
    }

    /// The server gave these words.
    pub open spec fn kicked(
        code: CloseCode,
        retryable: bool,
        text: String,
        during_login: bool,
        failure: Option<BackendFailureCode>,
    ) -> CloseEvidence {
        CloseEvidence {
            code,
            retryable,
            deliberate: false,
            kick: Some(BackendKick { text, during_login }),
            error: None,
            end_reason: Some(EndReason::Text(text)),
            failure: match failure {
                Some(failure) => Some(
                    BackendFailure {
                        code: failure,
                        message: FailureMessage::Text(text),
                        retryable: false,
                    },
                ),
                None => None,
            },
        }
    }

    /// What a reason proves.
    pub open spec fn of_reason(reason: Option<String>, during_login: bool) -> CloseEvidence {
        match reason {
            None => Self::ended(),
            Some(text) => match close_class(Some(text@)) {
                CloseClass::Deliberate => Self::deliberate_stop(),
                CloseClass::ServerShutdown => Self::kicked(
                    CloseCode::ServerShutdown,
                    true,
                    text,
                    during_login,
                    None,
                ),
                CloseClass::Refused(failure) => Self::kicked(
                    CloseCode::PermissionDenied,
                    false,
                    text,
                    during_login,
                    Some(failure),
                ),
                _ => Self::kicked(
                    CloseCode::UnclassifiedKick,
                    false,
                    text,
                    during_login,
                    Some(BackendFailureCode::PermissionDenied),
                ),
            },
        }
    }

    /// The transport failed with these words.
    pub open spec fn of_failure(error: String) -> CloseEvidence {
        CloseEvidence {
            code: CloseCode::ConnectionFailed,
            retryable: true,
            deliberate: false,
            kick: None,
            error: Some(BackendCloseError { name: CloseCode::ConnectionFailed, message: error }),
            end_reason: Some(EndReason::Text(error)),
            failure: Some(
                BackendFailure {
                    code: BackendFailureCode::ProtocolError,
                    message: FailureMessage::Text(error),
                    retryable: true,
                },
            ),
        }
    }

    pub open spec fn timeout_code(phase: TransportPhase) -> CloseCode {
        match phase {
            TransportPhase::Connecting => CloseCode::ConnectionTimeout,
            TransportPhase::LoggingIn => CloseCode::LoginTimeout,
            TransportPhase::Spawning => CloseCode::SpawnTimeout,
        }
    }

    /// A phase took too long.
    pub open spec fn of_timeout(phase: TransportPhase) -> CloseEvidence {
        CloseEvidence {
            code: Self::timeout_code(phase),
            retryable: true,
            deliberate: false,
            kick: None,
            error: None,
            end_reason: Some(EndReason::Code(Self::timeout_code(phase))),
            failure: None,
        }
    }

    fn kick(
        code: CloseCode,
        retryable: bool,
        text: String,
        during_login: bool,
        failure: Option<BackendFailureCode>,
    ) -> (evidence: Self)
        ensures
            evidence == Self::kicked(code, retryable, text, during_login, failure),
    {
        CloseEvidence {
            code,
            retryable,
            deliberate: false,
            kick: Some(BackendKick { text: text.clone(), during_login }),
            error: None,
            end_reason: Some(EndReason::Text(text.clone())),
            failure: match failure {
                Some(failure) => Some(
                    BackendFailure {
                        code: failure,
                        message: FailureMessage::Text(text),
                        retryable: false,
                    },
                ),
                None => None,
            },
        }
    }

    pub(crate) fn stop() -> (evidence: Self)
        ensures
            evidence == Self::deliberate_stop(),
    {
        CloseEvidence {
            code: CloseCode::DeliberateStop,
            retryable: false,
            deliberate: true,
            kick: None,
            error: None,
            end_reason: Some(EndReason::Code(CloseCode::DeliberateStop)),
            failure: None,
        }
    }

    /// What a reason proves.
    pub fn from_reason(reason: Option<String>, during_login: bool) -> (evidence: Self)
        ensures
            evidence == Self::of_reason(reason, during_login),
    {
        let class = classify_close(&reason);
        match reason {
            None => CloseEvidence {
                code: CloseCode::ConnectionEnded,
                retryable: true,
                deliberate: false,
                kick: None,
                error: None,
                end_reason: None,
                failure: None,
            },
            Some(text) => match class {
                CloseClass::Deliberate => Self::stop(),
                CloseClass::ServerShutdown => Self::kick(
                    CloseCode::ServerShutdown,
                    true,
                    text,
                    during_login,
                    None,
                ),
                CloseClass::Refused(failure) => Self::kick(
                    CloseCode::PermissionDenied,
                    false,
                    text,
                    during_login,
                    Some(failure),
                ),
                _ => Self::kick(
                    CloseCode::UnclassifiedKick,
                    false,
                    text,
                    during_login,
                    Some(BackendFailureCode::PermissionDenied),
                ),
            },
        }
    }

    /// What a failure of the transport proves.
    pub fn from_failure(error: String) -> (evidence: Self)
        ensures
            evidence == Self::of_failure(error),
    {
        CloseEvidence {
            code: CloseCode::ConnectionFailed,
            retryable: true,
            deliberate: false,
            kick: None,
            error: Some(
                BackendCloseError { name: CloseCode::ConnectionFailed, message: error.clone() },
            ),
            end_reason: Some(EndReason::Text(error.clone())),
            failure: Some(
                BackendFailure {
                    code: BackendFailureCode::ProtocolError,
                    message: FailureMessage::Text(error),
                    retryable: true,
                },
            ),
        }
    }

    /// What a phase that took too long proves.
    pub fn timeout_close_evidence(phase: TransportPhase) -> (evidence: Self)
        ensures
            evidence == Self::of_timeout(phase),
    {
        let code = match phase {
            TransportPhase::Connecting => CloseCode::ConnectionTimeout,
            TransportPhase::LoggingIn => CloseCode::LoginTimeout,
            TransportPhase::Spawning => CloseCode::SpawnTimeout,
        };
        CloseEvidence {
            code,
            retryable: true,
            deliberate: false,
            kick: None,
            error: None,
            end_reason: Some(EndReason::Code(code)),
            failure: None,
        }
    }

    /// The close that the evidence makes.
    pub open spec fn close(self, epoch: u64, at: UtcInstant) -> BackendClose {
        BackendClose {
            epoch,
            at,
            code: self.code,
            retryable: self.retryable,
            deliberate: self.deliberate,
            kick: self.kick,
            error: self.error,
            end_reason: self.end_reason,
        }
    }
}

impl RuntimeView {
    /// The close that is on record, or a bare one if none is.
    pub open spec fn recorded_close(self, at: UtcInstant) -> BackendClose {
        match self.connection.last_close {
            Some(close) => close,
            None => CloseEvidence::ended().close(self.epoch(), at),
        }
    }

    /// Once a stop has won, a late disconnect cannot replace its evidence.
    pub open spec fn effective_evidence(self, evidence: CloseEvidence) -> CloseEvidence {
        if self.flags.stopping && !evidence.deliberate {
            CloseEvidence::deliberate_stop()
        } else {
            evidence
        }
    }

    /// The attempt is sealed: nobody owns it and its close is on record.
    #[verifier::opaque]
    pub open spec fn sealed(
        self,
        close: BackendClose,
        failure: Option<BackendFailure>,
        failure_entity: Option<u64>,
    ) -> RuntimeView {
        RuntimeView {
            flags: RuntimeFlags { disconnect_reported: true, ready: false, ..self.flags },
            counters: RuntimeCounters {
                phase_generation: checked_next(self.counters.phase_generation),
                stable_generation: checked_next(self.counters.stable_generation),
                ..self.counters
            },
            connection: ConnectionState {
                active_client: None,
                last_close: Some(close),
                last_failure: failure,
                ..self.connection
            },
            producer: ProducerView {
                attempt: AttemptAdmissionState::Closed { epoch: close.epoch },
                pending_connection_failure: match failure_entity {
                    Some(entity) => if close.code == CloseCode::ConnectionFailed {
                        Some((entity, close.epoch))
                    } else {
                        None
                    },
                    None => None,
                },
                ..self.producer.disowned()
            },
            ..self
        }
    }

    /// Everything local that belongs to the attempt is cleaned up.
    pub open spec fn attempt_swept(self) -> RuntimeView {
        self.movement_cancelled(true).pending_cancelled().observations_cleared()
    }

    /// The end of the connection: the close, whether to drain, and whether the
    /// end was known already.
    #[verifier::opaque]
    pub open spec fn disconnected(
        self,
        evidence: CloseEvidence,
        failure_entity: Option<u64>,
        at: UtcInstant,
    ) -> (RuntimeView, BackendClose, bool, bool) {
        if self.flags.stopped_reported {
            (self, self.recorded_close(at), false, false)
        } else if self.flags.disconnect_reported {
            (self, self.recorded_close(at), false, true)
        } else {
            let effective = self.effective_evidence(evidence);
            let close = effective.close(self.epoch(), at);
            let step = self.sealed(
                close,
                effective.failure,
                failure_entity,
            ).attempt_swept().enqueued(
                FactSource::ServerObserved,
                BackendEventPayload::Lifecycle(
                    BackendLifecyclePayload::ConnectionClosed { close },
                ),
                at,
            );
            (step.0, close, step.1, false)
        }
    }

    /// What follows: a repeated end sweeps once more, then events drain.
    pub open spec fn disconnect_followed(
        step: (RuntimeView, BackendClose, bool, bool),
    ) -> RuntimeView {
        Self::followed(
            (
                if step.3 {
                    step.0.attempt_swept()
                } else {
                    step.0
                },
                step.2,
            ),
        )
    }

    /// The end of the connection, whoever reports it.
    pub open spec fn ended_by(
        self,
        evidence: CloseEvidence,
        failure_entity: Option<u64>,
        at: UtcInstant,
    ) -> RuntimeView {
        Self::disconnect_followed(self.disconnected(evidence, failure_entity, at))
    }

    /// The end of the connection as a source of this entity and epoch reports it.
    pub open spec fn ended_by_source(
        self,
        evidence: CloseEvidence,
        entity: u64,
        source_epoch: u64,
        failure_entity: Option<u64>,
        token: Option<u64>,
        at: UtcInstant,
    ) -> (RuntimeView, Option<BackendClose>) {
        if self.epoch() == source_epoch && self.producer.closable(entity, source_epoch, true, token) {
            let claimed = self.with_producer(self.producer.disowned());
            (
                claimed.ended_by(evidence, failure_entity, at),
                Some(claimed.disconnected(evidence, failure_entity, at).1),
            )
        } else {
            (self, None)
        }
    }

    /// The transport failure of this entity still waits for its follow-up.
    pub open spec fn failure_followup_due(self, entity: u64, token: Option<u64>) -> bool {
        self.producer.pending_connection_failure == Some((entity, self.epoch())) && (
        token matches Some(t) ==> self.producer.bindings.contains((t, self.epoch())))
    }
}

impl SharedRuntime {
    /// Reads a reason against the current state.
    pub fn close_evidence(&self, reason: Option<String>) -> (evidence: CloseEvidence)
        ensures
            evidence == CloseEvidence::of_reason(reason, !self@.flags.ready),
    {
        CloseEvidence::from_reason(reason, !self.flags.ready)
    }

    fn known_close(&self, at: UtcInstant) -> (close: BackendClose)
        ensures
            close == self@.recorded_close(at),
    {
        match &self.connection.last_close {
            Some(close) => close.clone(),
            None => BackendClose {
                epoch: self.writer.connection_epoch,
                at,
                code: CloseCode::ConnectionEnded,
                retryable: true,
                deliberate: false,
                kick: None,
                error: None,
                end_reason: None,
            },
        }
    }

    fn seal_attempt(
        &mut self,
        close: BackendClose,
        failure: Option<BackendFailure>,
        failure_entity: Option<u64>,
    )
        requires
            old(self)@.wf(),
            close.epoch == old(self)@.epoch(),
        ensures
            final(self)@ == old(self)@.sealed(close, failure, failure_entity),
            final(self)@.wf(),
    {
        proof {
            reveal(RuntimeView::sealed);
            lemma_disowned_wf(
                self@.producer,
                AttemptAdmissionState::Closed { epoch: close.epoch },
            );
            reveal(ProducerView::wf);
        }
        let epoch: u64 = close.epoch;
        let failed = close.code == CloseCode::ConnectionFailed;
        self.flags.disconnect_reported = true;
        self.flags.ready = false;
        let _ = checked_increment(&mut self.counters.phase_generation);
        let _ = checked_increment(&mut self.counters.stable_generation);
        self.connection.active_client = None;
        self.connection.last_close = Some(close);
        self.connection.last_failure = failure;
        self.producer.owner = None;
        self.producer.deactivate_scope();
        self.producer.attempt = AttemptAdmissionState::Closed { epoch };
        self.producer.pending_connection_failure = match failure_entity {
            Some(entity) => if failed {
                Some((entity, epoch))
            } else {
                None
            },
            None => None,
        };
    }

    pub(crate) fn sweep_attempt(&mut self)
        requires
            old(self)@.wf(),
        ensures
            final(self)@ == old(self)@.attempt_swept(),
            final(self)@.wf(),
    {
        let _ = self.cancel_active_movement(true);
        self.cancel_pending_commands();
        self.clear_observations();
    }

    fn effective(&self, evidence: CloseEvidence) -> (r: CloseEvidence)
        ensures
            r == self@.effective_evidence(evidence),
    {
        if self.flags.stopping && !evidence.deliberate {
            CloseEvidence::stop()
        } else {
            evidence
        }
    }

    /// Records the end of the connection. The attempt is sealed and cleaned up
    /// before its close becomes visible.
    pub(crate) fn disconnect(
        &mut self,
        evidence: CloseEvidence,
        failure_entity: Option<u64>,
        at: UtcInstant,
    ) -> (r: (BackendClose, bool, bool))
        requires
            old(self)@.wf(),
        ensures
            (final(self)@, r.0, r.1, r.2) == old(self)@.disconnected(
                evidence,
                failure_entity,
                at,
            ),
            final(self)@.wf(),
    {
        reveal(RuntimeView::disconnected);
        if self.flags.stopped_reported {
            return (self.known_close(at), false, false);
        }
        if self.flags.disconnect_reported {
            return (self.known_close(at), false, true);
        }
        let effective = self.effective(evidence);
        let close = BackendClose {
            epoch: self.writer.connection_epoch,
            at,
            code: effective.code,
            retryable: effective.retryable,
            deliberate: effective.deliberate,
            kick: effective.kick,
            error: effective.error,
            end_reason: effective.end_reason,
        };
        self.seal_attempt(close.clone(), effective.failure, failure_entity);
        self.sweep_attempt();
        let should_drain = self.enqueue_event(
            FactSource::ServerObserved,
            BackendEventPayload::Lifecycle(
                BackendLifecyclePayload::ConnectionClosed { close: close.clone() },
            ),
            at,
        );
        (close, should_drain, false)
    }

    /// Records the end of the connection and drains.
    pub fn mark_disconnected_evidence(
        &mut self,
        evidence: CloseEvidence,
        failure_entity: Option<u64>,
        at: UtcInstant,
    ) -> (close: BackendClose)
        requires
            old(self)@.wf(),
        ensures
            close == old(self)@.disconnected(evidence, failure_entity, at).1,
            final(self)@ == old(self)@.ended_by(evidence, failure_entity, at),
            final(self)@.wf(),
    {
        let (close, should_drain, duplicate) = self.disconnect(evidence, failure_entity, at);
        if duplicate {
            self.sweep_attempt();
        }
        if should_drain {
            self.drain_events();
        }
        close
    }

    /// Records the end of the connection for a reason, whoever reports it.
    pub fn mark_disconnected(&mut self, reason: Option<String>, at: UtcInstant) -> (close:
        BackendClose)
        requires
            old(self)@.wf(),
        ensures
            close == old(self)@.disconnected(
                CloseEvidence::of_reason(reason, !old(self)@.flags.ready),
                None,
                at,
            ).1,
            final(self)@ == old(self)@.ended_by(
                CloseEvidence::of_reason(reason, !old(self)@.flags.ready),
                None,
                at,
            ),
            final(self)@.wf(),
    {
        let evidence = self.close_evidence(reason);
        self.mark_disconnected_evidence(evidence, None, at)
    }

    fn end_by_source(
        &mut self,
        evidence: CloseEvidence,
        entity: u64,
        source_epoch: u64,
        failure_entity: Option<u64>,
        attempt_token: Option<u64>,
        at: UtcInstant,
    ) -> (close: Option<BackendClose>)
        requires
            old(self)@.wf(),
        ensures
            (final(self)@, close) == old(self)@.ended_by_source(
                evidence,
                entity,
                source_epoch,
                failure_entity,
                attempt_token,
                at,
            ),
            final(self)@.wf(),
    {
        if !self.admit_entity_lifecycle_owner(entity, source_epoch, true, attempt_token) {
            return None;
        }
        Some(self.mark_disconnected_evidence(evidence, failure_entity, at))
    }

    /// Records a disconnect that a source of this entity and epoch reports. A
    /// source of another attempt is refused and changes nothing.
    pub fn admit_canonical_disconnected_with_token(
        &mut self,
        entity: u64,
        source_epoch: u64,
        reason: Option<String>,
        attempt_token: Option<u64>,
        at: UtcInstant,
    ) -> (close: Option<BackendClose>)
        requires
            old(self)@.wf(),
        ensures
            (final(self)@, close) == old(self)@.ended_by_source(
                CloseEvidence::of_reason(reason, !old(self)@.flags.ready),
                entity,
                source_epoch,
                None,
                attempt_token,
                at,
            ),
            final(self)@.wf(),
    {
        let evidence = self.close_evidence(reason);
        self.end_by_source(evidence, entity, source_epoch, None, attempt_token, at)
    }

    /// Records a transport failure that a source of this entity and epoch
    /// reports, and remembers that its follow-up is due.
    pub fn admit_canonical_connection_failed_with_token(
        &mut self,
        entity: u64,
        source_epoch: u64,
        error: String,
        attempt_token: Option<u64>,
        at: UtcInstant,
    ) -> (close: Option<BackendClose>)
        requires
            old(self)@.wf(),
        ensures
            (final(self)@, close) == old(self)@.ended_by_source(
                CloseEvidence::of_failure(error),
                entity,
                source_epoch,
                Some(entity),
                attempt_token,
                at,
            ),
            final(self)@.wf(),
    {
        self.end_by_source(
            CloseEvidence::from_failure(error),
            entity,
            source_epoch,
            Some(entity),
            attempt_token,
            at,
        )
    }

    /// A disconnect whose source epoch is the current one.
    pub fn admit_canonical_disconnected_source_with_token(
        &mut self,
        entity: u64,
        reason: Option<String>,
        attempt_token: Option<u64>,
        at: UtcInstant,
    ) -> (close: Option<BackendClose>)
        requires
            old(self)@.wf(),
        ensures
            (final(self)@, close) == old(self)@.ended_by_source(
                CloseEvidence::of_reason(reason, !old(self)@.flags.ready),
                entity,
                old(self)@.epoch(),
                None,
                attempt_token,
                at,
            ),
            final(self)@.wf(),
    {
        let source_epoch: u64 = self.writer.connection_epoch;
        self.admit_canonical_disconnected_with_token(
            entity,
            source_epoch,
            reason,
            attempt_token,
            at,
        )
    }

    /// A transport failure whose source epoch is the current one.
    pub fn admit_canonical_connection_failed_source_with_token(
        &mut self,
        entity: u64,
        error: String,
        attempt_token: Option<u64>,
        at: UtcInstant,
    ) -> (close: Option<BackendClose>)
        requires
            old(self)@.wf(),
        ensures
            (final(self)@, close) == old(self)@.ended_by_source(
                CloseEvidence::of_failure(error),
                entity,
                old(self)@.epoch(),
                Some(entity),
                attempt_token,
                at,
            ),
            final(self)@.wf(),
    {
        let source_epoch: u64 = self.writer.connection_epoch;
        self.admit_canonical_connection_failed_with_token(
            entity,
            source_epoch,
            error,
            attempt_token,
            at,
        )
    }

    /// Takes the follow-up of a transport failure: it is due once.
    pub fn take_canonical_connection_failure_followup_with_token(
        &mut self,
        entity: u64,
        attempt_token: Option<u64>,
    ) -> (taken: bool)
        requires
            old(self)@.wf(),
        ensures
            taken == old(self)@.failure_followup_due(entity, attempt_token),
            final(self)@ == (if taken {
                old(self)@.with_producer(
                    ProducerView {
                        pending_connection_failure: None,
                        ..old(self)@.producer
                    },
                )
            } else {
                old(self)@
            }),
            final(self)@.wf(),
    {
        let epoch: u64 = self.writer.connection_epoch;
        let pending = match self.producer.pending_connection_failure {
            Some(failure) => failure.0 == entity && failure.1 == epoch,
            None => false,
        };
        let bound = match attempt_token {
            Some(token) => self.producer.source_token_bindings.matches(token, epoch),
            None => true,
        };
        if pending && bound {
            reveal(ProducerView::wf);
            self.producer.pending_connection_failure = None;
            true
        } else {
            false
        }
    }
}

/// `words` is the text with the letters from A to Z in lower case.
pub open spec fn in_lower_case(words: Seq<char>, text: Seq<char>) -> bool {
    &&& words.len() == text.len()
    &&& forall|i: int|
        0 <= i < text.len() ==> #[trigger] words[i] == (if 'A' <= text[i] && text[i] <= 'Z' {
            (text[i] as int + 32) as char
        } else {
            text[i]
        })
}

/// Some part of the words is this very phrase.
pub open spec fn says(words: Seq<char>, phrase: Seq<char>) -> bool {
    exists|i: int|
        0 <= i && i + phrase.len() <= words.len() && #[trigger] words.subrange(
            i,
            i + phrase.len(),
        ) == phrase
}

proof fn lemma_says(words: Seq<char>, phrase: Seq<char>)
    ensures
        says(words, phrase) == has_run(words, phrase),
{
    if says(words, phrase) {
        let i = choose|i: int|
            0 <= i && i + phrase.len() <= words.len() && #[trigger] words.subrange(
                i,
                i + phrase.len(),
            ) == phrase;
        assert(crate::text::run_at(words, phrase, i));
    }
    if has_run(words, phrase) {
        let i = choose|i: int| crate::text::run_at(words, phrase, i);
        assert(words.subrange(i, i + phrase.len()) == phrase);
    }
}

/// The words of a server that goes down and will be back.
pub open spec fn announces_return(words: Seq<char>) -> bool {
    says(words, "server closed"@) || says(words, "server shutdown"@) || says(
        words,
        "server_shutdown"@,
    ) || says(words, "server restarting"@)
}

/// The words of a server that will not have this player.
pub open spec fn turns_away(words: Seq<char>) -> bool {
    says(words, "banned"@) || says(words, "whitelist"@) || says(words, "invalid session"@) || says(
        words,
        "authentication"@,
    ) || says(words, "not authenticated"@)
}

proof fn lemma_read_reason(text: Seq<char>, words: Seq<char>)
    requires
        in_lower_case(words, text),
    ensures
        words == ascii_lower_text(text),
        announces_return(words) == speaks_of_shutdown(words),
        turns_away(words) == speaks_of_refusal(words),
        (says(words, "auth"@) || says(words, "session"@)) == speaks_of_identity(words),
{
    assert(words =~= ascii_lower_text(text));
    lemma_says(words, "server closed"@);
    lemma_says(words, "server shutdown"@);
    lemma_says(words, "server_shutdown"@);
    lemma_says(words, "server restarting"@);
    lemma_says(words, "banned"@);
    lemma_says(words, "whitelist"@);
    lemma_says(words, "invalid session"@);
    lemma_says(words, "authentication"@);
    lemma_says(words, "not authenticated"@);
    lemma_says(words, "auth"@);
    lemma_says(words, "session"@);
}

/// A server that says it goes down is worth another try: the end is retryable,
/// nobody wanted it, and it is no failure.
pub proof fn law_a_server_that_goes_down_is_worth_a_retry(
    reason: String,
    words: Seq<char>,
    during_login: bool,
)
    requires
        reason@ != "deliberate_stop"@,
        in_lower_case(words, reason@),
        announces_return(words),
    ensures
        ({
            let evidence = CloseEvidence::of_reason(Some(reason), during_login);
            &&& evidence.code == CloseCode::ServerShutdown
            &&& evidence.retryable
            &&& !evidence.deliberate
            &&& evidence.failure is None
            &&& evidence.error is None
            &&& evidence.kick == Some(BackendKick { text: reason, during_login })
            &&& evidence.end_reason == Some(EndReason::Text(reason))
        }),
{
    lemma_read_reason(reason@, words);
}

/// A server that turns the player away is not tried again. The failure says
/// whether it was about who the player is.
pub proof fn law_a_server_that_turns_away_is_not_tried_again(
    reason: String,
    words: Seq<char>,
    during_login: bool,
)
    requires
        reason@ != "deliberate_stop"@,
        in_lower_case(words, reason@),
        !announces_return(words),
    ensures
        ({
            let evidence = CloseEvidence::of_reason(Some(reason), during_login);
            &&& !evidence.retryable
            &&& !evidence.deliberate
            &&& evidence.error is None
            &&& evidence.kick == Some(BackendKick { text: reason, during_login })
            &&& evidence.end_reason == Some(EndReason::Text(reason))
            &&& evidence.code == (if turns_away(words) {
                CloseCode::PermissionDenied
            } else {
                CloseCode::UnclassifiedKick
            })
            &&& evidence.failure matches Some(failure)
            &&& !failure.retryable
            &&& failure.message == FailureMessage::Text(reason)
            &&& failure.code == (if turns_away(words) && (says(words, "auth"@) || says(
                words,
                "session"@,
            )) {
                BackendFailureCode::AuthenticationFailed
            } else {
                BackendFailureCode::PermissionDenied
            })
        }),
{
    lemma_read_reason(reason@, words);
}

/// An end that the runtime wanted is never retried and is no failure; one that
/// came without a word, from the transport or from a phase that took too long
/// is always worth a retry.
pub proof fn law_ends_without_a_reason_are_worth_a_retry(
    stop: String,
    error: String,
    phase: TransportPhase,
    during_login: bool,
)
    requires
        stop@ == "deliberate_stop"@,
    ensures
        ({
            let wanted = CloseEvidence::of_reason(Some(stop), during_login);
            &&& wanted == CloseEvidence::deliberate_stop()
            &&& wanted.code == CloseCode::DeliberateStop
            &&& wanted.deliberate
            &&& !wanted.retryable
            &&& wanted.failure is None
            &&& wanted.kick is None
            &&& wanted.error is None
            &&& wanted.end_reason == Some(EndReason::Code(CloseCode::DeliberateStop))
        }),
        ({
            let silent = CloseEvidence::of_reason(None, during_login);
            &&& silent.code == CloseCode::ConnectionEnded
            &&& silent.retryable
            &&& !silent.deliberate
            &&& silent.failure is None
            &&& silent.kick is None
            &&& silent.error is None
            &&& silent.end_reason is None
        }),
        ({
            let failed = CloseEvidence::of_failure(error);
            &&& failed.code == CloseCode::ConnectionFailed
            &&& failed.retryable
            &&& !failed.deliberate
            &&& failed.kick is None
            &&& failed.error matches Some(cause)
            &&& cause.name == CloseCode::ConnectionFailed
            &&& cause.message == error
            &&& failed.end_reason == Some(EndReason::Text(error))
            &&& failed.failure matches Some(failure)
            &&& failure.code == BackendFailureCode::ProtocolError
            &&& failure.retryable
            &&& failure.message == FailureMessage::Text(error)
        }),
        ({
            let late = CloseEvidence::of_timeout(phase);
            &&& late.code == (match phase {
                TransportPhase::Connecting => CloseCode::ConnectionTimeout,
                TransportPhase::LoggingIn => CloseCode::LoginTimeout,
                TransportPhase::Spawning => CloseCode::SpawnTimeout,
            })
            &&& late.retryable
            &&& !late.deliberate
            &&& late.failure is None
            &&& late.kick is None
            &&& late.error is None
            &&& late.end_reason == Some(EndReason::Code(late.code))
        }),
{
}

/// A close says of the end exactly what the evidence says, with the epoch and
/// the time; once a stop has begun, every end counts as wanted.
pub proof fn law_a_close_repeats_its_evidence(
    runtime: RuntimeView,
    evidence: CloseEvidence,
    failure_entity: Option<u64>,
    at: UtcInstant,
)
    requires
        !runtime.flags.stopped_reported,
        !runtime.flags.disconnect_reported,
    ensures
        ({
            let close = runtime.disconnected(evidence, failure_entity, at).1;
            &&& close.epoch == runtime.writer.connection_epoch
            &&& close.at == at
            &&& !runtime.flags.stopping || evidence.deliberate ==> {
                &&& close.code == evidence.code
                &&& close.retryable == evidence.retryable
                &&& close.deliberate == evidence.deliberate
                &&& close.kick == evidence.kick
                &&& close.error == evidence.error
                &&& close.end_reason == evidence.end_reason
            }
            &&& runtime.flags.stopping && !evidence.deliberate ==> {
                &&& close.code == CloseCode::DeliberateStop
                &&& close.deliberate
                &&& !close.retryable
            }
        }),
{
    reveal(RuntimeView::disconnected);
}

/// A connection that failed is worth another try, and its error is on record: as
/// the error, as the end and as the failure.
pub proof fn law_a_failed_connection_is_worth_a_retry(error: String)
    ensures
        ({
            let evidence = CloseEvidence::of_failure(error);
            &&& evidence.code == CloseCode::ConnectionFailed
            &&& evidence.retryable
            &&& !evidence.deliberate
            &&& evidence.kick is None
            &&& evidence.error == Some(
                BackendCloseError { name: CloseCode::ConnectionFailed, message: error },
            )
            &&& evidence.end_reason == Some(EndReason::Text(error))
            &&& evidence.failure == Some(
                BackendFailure {
                    code: BackendFailureCode::ProtocolError,
                    message: FailureMessage::Text(error),
                    retryable: true,
                },
            )
        }),
{
}

/// A phase that took too long is worth another try, and the end says which phase
/// it was.
pub proof fn law_a_timeout_names_its_phase(phase: TransportPhase)
    ensures
        ({
            let evidence = CloseEvidence::of_timeout(phase);
            let code = match phase {
                TransportPhase::Connecting => CloseCode::ConnectionTimeout,
                TransportPhase::LoggingIn => CloseCode::LoginTimeout,
                TransportPhase::Spawning => CloseCode::SpawnTimeout,
            };
            &&& evidence.code == code
            &&& evidence.retryable
            &&& !evidence.deliberate
            &&& evidence.kick is None
            &&& evidence.error is None
            &&& evidence.end_reason == Some(EndReason::Code(code))
            &&& evidence.failure is None
        }),
{
}

/// A stop that the runtime makes itself is deliberate and not retried.
pub proof fn law_a_stop_of_our_own_is_deliberate(reason: String, during_login: bool)
    requires
        reason@ == "deliberate_stop"@,
    ensures
        ({
            let evidence = CloseEvidence::of_reason(Some(reason), during_login);
            &&& evidence.code == CloseCode::DeliberateStop
            &&& evidence.deliberate
            &&& !evidence.retryable
            &&& evidence.kick is None
            &&& evidence.error is None
            &&& evidence.end_reason == Some(EndReason::Code(CloseCode::DeliberateStop))
            &&& evidence.failure is None
        }),
{
}

/// An end that is reported is the current attempt's exactly if its source may
/// close it, in the current epoch; any other changes nothing.
pub proof fn law_only_the_attempts_own_source_ends_it(
    runtime: RuntimeView,
    evidence: CloseEvidence,
    entity: u64,
    source_epoch: u64,
    failure_entity: Option<u64>,
    token: Option<u64>,
    at: UtcInstant,
)
    ensures
        ({
            let (after, close) = runtime.ended_by_source(
                evidence,
                entity,
                source_epoch,
                failure_entity,
                token,
                at,
            );
            let own = runtime.writer.connection_epoch == source_epoch && runtime.producer.closable(
                entity,
                source_epoch,
                true,
                token,
            );
            &&& close is Some <==> own
            &&& !own ==> after == runtime
            &&& own && !runtime.flags.stopped_reported && !runtime.flags.disconnect_reported ==> {
                &&& after.flags.disconnect_reported
                &&& after.connection.last_close == close
                &&& (close->0).epoch == source_epoch
                &&& (close->0).at == at
                &&& !runtime.flags.stopping ==> (close->0).code == evidence.code
                    && (close->0).retryable == evidence.retryable
            }
        }),
{
    if runtime.producer.closable(entity, source_epoch, true, token) {
        let claimed = runtime.with_producer(runtime.producer.disowned());
        if !runtime.flags.stopped_reported && !runtime.flags.disconnect_reported {
            crate::guarantees::lemma_disconnected_frame(claimed, evidence, failure_entity, at);
            let step = claimed.disconnected(evidence, failure_entity, at);
            crate::guarantees::lemma_followed_frame((step.0, step.2));
        }
    }
}

/// What is sealed is over: the end is on record, nobody owns the attempt, no timer
/// of it counts, and a failed transport is noted for its follow-up.
pub proof fn law_what_is_sealed_is_over(
    runtime: RuntimeView,
    close: BackendClose,
    failure: Option<BackendFailure>,
    failure_entity: Option<u64>,
)
    requires
        runtime.counters.phase_generation < u64::MAX,
        runtime.counters.stable_generation < u64::MAX,
    ensures
        ({
            let after = runtime.sealed(close, failure, failure_entity);
            &&& after.flags == (RuntimeFlags {
                disconnect_reported: true,
                ready: false,
                ..runtime.flags
            })
            &&& after.counters == (RuntimeCounters {
                phase_generation: (runtime.counters.phase_generation + 1) as u64,
                stable_generation: (runtime.counters.stable_generation + 1) as u64,
                ..runtime.counters
            })
            &&& after.connection.last_close == Some(close)
            &&& after.connection.last_failure == failure
            &&& after.connection.active_client is None
            &&& after.producer.owner is None
            &&& after.producer.attempt == (AttemptAdmissionState::Closed { epoch: close.epoch })
            &&& after.producer.pending_connection_failure == (if failure_entity is Some
                && close.code == CloseCode::ConnectionFailed {
                Some((failure_entity->0, close.epoch))
            } else {
                None
            })
        }),
{
    reveal(RuntimeView::sealed);
}

/// The follow-up of a failed transport is due exactly for the entity that failed,
/// in the current epoch, under a token of that epoch if it has one.
pub proof fn law_when_a_failure_is_followed_up(
    runtime: RuntimeView,
    entity: u64,
    token: Option<u64>,
)
    ensures
        runtime.failure_followup_due(entity, token) <==> {
            &&& runtime.producer.pending_connection_failure == Some(
                (entity, runtime.writer.connection_epoch),
            )
            &&& token is Some ==> runtime.producer.bindings.contains(
                (token->0, runtime.writer.connection_epoch),
            )
        },
{
}

/// Whoever reports an end that is known gets the close on record; if none is, one
/// without a reason, which is worth another try.
pub proof fn law_a_known_end_is_handed_back(runtime: RuntimeView, at: UtcInstant)
    ensures
        ({
            let close = runtime.recorded_close(at);
            &&& runtime.connection.last_close matches Some(known) ==> close == known
            &&& runtime.connection.last_close is None ==> {
                &&& close.code == CloseCode::ConnectionEnded
                &&& close.epoch == runtime.writer.connection_epoch
                &&& close.at == at
                &&& close.retryable
                &&& !close.deliberate
                &&& close.kick is None
                &&& close.error is None
                &&& close.end_reason is None
            }
        }),
{
}

} // verus!
