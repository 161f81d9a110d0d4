//! What the runtime does when the client or its manager reports something.
//!
//! The client's side of each event lies outside: it is carried out between the
//! steps, and what came of it is handed to the next step.

use std::sync::Arc;

use vstd::prelude::*;

use crate::closing::CloseEvidence;
use crate::config::{config_error, validate_run_config, ConfigError, RunConfig};
use crate::contract::{
    BackendClose, BackendEventPayload, BackendLifecyclePayload, ChatEvent, ChatPosition, FactSource,
    PlayerListEvent, SnapshotGroup,
};
use crate::lanes::successor;
use crate::snapshot::MinecraftSnapshotV1;
use crate::state::{
    next_number, ClientRef, ProducerView, RuntimeCounters, RuntimeFlags, RuntimeView,
    SharedRuntime,
};
use crate::time::UtcInstant;

verus! {

/// The version of the game that the client speaks.
pub const GAME_VERSION: &'static str = "26.1.2";

/// The dimension of a player whose world has no name.
pub const DEFAULT_DIMENSION: &'static str = "minecraft:overworld";

/// The reason of a stop at the end of a run's duration.
pub const DURATION_ELAPSED: &'static str = "duration_elapsed";

/// A predicted snapshot is taken at every so many ticks.
pub const TICKS_PER_SNAPSHOT: u64 = 5;

/// The name of the world that a player is let into.
pub open spec fn world_text(world_name: Option<String>) -> Seq<char> {
    match world_name {
        Some(name) => name@,
        None => DEFAULT_DIMENSION@,
    }
}

/// The version that a login is reported with.
pub open spec fn version_text(version: Seq<char>) -> bool {
    version == GAME_VERSION@
}

/// What follows a spawn.
#[derive(Debug, PartialEq, Eq)]
pub struct SpawnFollowUp {
    /// A chat line to send now.
    pub chat: Option<String>,
    /// Stop after this many milliseconds.
    pub stop_after_ms: Option<u64>,
}

/// What follows a disconnect that the client's manager reports.
#[derive(Debug, PartialEq, Eq)]
pub enum SwarmDisconnect {
    /// The disconnect is not the current attempt's, or is being taken care of.
    Ignored,
    /// The run stops, or the disconnect was wanted: nothing follows.
    Ended,
    /// There is no retry: the failure is reported and the run ends.
    Faulted,
    /// A retry is due after a delay.
    Retry { close: BackendClose },
}

impl RuntimeView {
    /// A client acts only as the owner of the current attempt, while the runtime runs.
    pub open spec fn client_acts(self, client: ClientRef) -> bool {
        self.owned_by(client) && self.running()
    }

    /// A client that arrives takes the attempt that was reserved for it.
    pub open spec fn client_arrived(self, client: ClientRef, at: UtcInstant) -> (RuntimeView, bool) {
        let step = self.init_consumed(client.entity, client.attempt_token, at);
        if step.1 is None || !step.0.client_acts(client) {
            (step.0, false)
        } else {
            (step.0.with_client(client), true)
        }
    }

    /// The player stands in the world, alive.
    pub open spec fn spawn_marked(self) -> RuntimeView {
        self.with_flags(RuntimeFlags { ready: true, death_reported: false, ..self.flags })
    }

    /// The events of a spawn: the respawn after a death, readiness, the snapshot.
    pub open spec fn spawn_told(
        self,
        snapshot: Arc<MinecraftSnapshotV1>,
        was_dead: bool,
        at: UtcInstant,
    ) -> RuntimeView {
        let respawned = if was_dead {
            self.emitted_if_running(
                FactSource::ServerObserved,
                BackendEventPayload::Lifecycle(
                    BackendLifecyclePayload::Respawned { dimension: snapshot.world.dimension },
                ),
                at,
            )
        } else {
            self
        };
        respawned.ready_and_followed(snapshot.snapshot_revision, at).emitted_if_running(
            FactSource::ServerObserved,
            BackendEventPayload::SnapshotChanged {
                group: SnapshotGroup::World,
                snapshot_revision: snapshot.snapshot_revision,
            },
            at,
        )
    }

    /// The once-only parts of a run: the first chat line and the duration.
    pub open spec fn run_begun(self) -> (RuntimeView, SpawnFollowUp) {
        if self.running() {
            (
                self.with_flags(
                    RuntimeFlags { initial_chat_sent: true, timer_started: true, ..self.flags },
                ),
                SpawnFollowUp {
                    chat: if self.flags.initial_chat_sent {
                        None
                    } else {
                        self.config.initial_chat
                    },
                    stop_after_ms: if !self.flags.timer_started && self.config.auto_stop {
                        Some(self.config.duration_ms)
                    } else {
                        None
                    },
                },
            )
        } else {
            (self, SpawnFollowUp { chat: None, stop_after_ms: None })
        }
    }

    /// A spawn whose snapshot was taken, or could not be taken.
    pub open spec fn spawn_completed(
        self,
        snapshot: Option<Arc<MinecraftSnapshotV1>>,
        was_dead: bool,
        at: UtcInstant,
    ) -> (RuntimeView, SpawnFollowUp) {
        match snapshot {
            Some(snapshot) => if self.running() {
                self.dimension_set(snapshot.world.dimension).spawn_told(
                    snapshot,
                    was_dead,
                    at,
                ).run_begun()
            } else {
                (self, SpawnFollowUp { chat: None, stop_after_ms: None })
            },
            None => self.ready_and_followed(self.counters.snapshot_revision, at).run_begun(),
        }
    }

    /// A predicted snapshot is due at this tick.
    pub open spec fn snapshot_due(self, client: ClientRef) -> bool {
        self.client_acts(client) && self.flags.ready && self.counters.tick_revision
            % TICKS_PER_SNAPSHOT == 0
    }

    pub open spec fn tick_counted(self) -> RuntimeView {
        self.with_counters(
            RuntimeCounters {
                tick_revision: successor(self.counters.tick_revision),
                ..self.counters
            },
        )
    }

    /// The reconnect that was claimed is given up.
    pub open spec fn reconnect_released(self) -> RuntimeView {
        self.with_flags(RuntimeFlags { reconnect_pending: false, ..self.flags })
    }

    /// What a close leads to, once the reconnect is claimed.
    pub open spec fn close_settled(self, close: BackendClose, at: UtcInstant) -> (
        RuntimeView,
        SwarmDisconnect,
    ) {
        if self.flags.stopping || close.deliberate {
            (self.reconnect_released(), SwarmDisconnect::Ended)
        } else if !close.retryable || !self.config.reconnect.enabled {
            (
                self.faulted(self.close_failure(close), at).shutdown_asked().reconnect_released(),
                SwarmDisconnect::Faulted,
            )
        } else {
            (self, SwarmDisconnect::Retry { close })
        }
    }

    /// The client's manager reports a disconnect.
    pub open spec fn swarm_disconnected(self, token: Option<u64>, at: UtcInstant) -> (
        RuntimeView,
        SwarmDisconnect,
    ) {
        if !self.reconnect_claimable(token) {
            (self, SwarmDisconnect::Ignored)
        } else {
            let claimed = self.reconnect_claimed(token);
            if claimed.flags.stopping {
                (claimed.reconnect_released(), SwarmDisconnect::Ended)
            } else {
                let evidence = CloseEvidence::of_reason(None, !claimed.flags.ready);
                claimed.ended_by(evidence, None, at).close_settled(
                    claimed.disconnected(evidence, None, at).1,
                    at,
                )
            }
        }
    }

    /// A retry's client was added: it is bound, or to be disconnected.
    pub open spec fn retry_returned(self, token: u64, client: ClientRef, at: UtcInstant) -> (
        RuntimeView,
        bool,
    ) {
        let bound = self.binds_reservation(client.entity, Some(token), false, client.attempt_token)
            || self.bound_already(client.entity, Some(token), false, client.attempt_token);
        let after = self.attempt_bound_and_followed(
            client.entity,
            Some(token),
            false,
            client.attempt_token,
            at,
        );
        let known = if bound && after.client_acts(client) {
            after.with_client(client)
        } else {
            after
        };
        (known.retry_finished(token), bound)
    }

    /// A run starts: from now on its timers count.
    pub open spec fn run_started(self, at: UtcInstant) -> RuntimeView {
        self.with_flags(RuntimeFlags { timers_enabled: true, ..self.flags }).connection_attempted(
            at,
        )
    }
}

impl SharedRuntime {
    /// Tells whether a client may act for the runtime.
    pub fn client_may_act(&self, client: ClientRef) -> (r: bool)
        ensures
            r == self@.client_acts(client),
    {
        self.client_is_current_owner(client) && self.command_execution_allowed()
    }

    /// Starts a run: checks its configuration and begins the first attempt.
    pub fn start_run(&mut self, config: &RunConfig, at: UtcInstant) -> (begun: Result<
        bool,
        ConfigError,
    >)
        requires
            old(self)@.wf(),
        ensures
            begun == (match config_error(*config) {
                Some(error) => Err(error),
                None => Ok(
                    old(self)@.attempt_allowed(None) && old(self)@.attempt_numbered(),
                ),
            }),
            final(self)@ == (if config_error(*config) is None {
                old(self)@.run_started(at)
            } else {
                old(self)@
            }),
            final(self)@.wf(),
    {
        match validate_run_config(config) {
            Err(error) => Err(error),
            Ok(()) => {
                self.put_flags(RuntimeFlags { timers_enabled: true, ..self.flags });
                Ok(self.begin_connection_attempt(at))
            },
        }
    }

    /// A client arrives. It becomes the active one if it gets the attempt.
    pub fn admit_client(&mut self, client: ClientRef, at: UtcInstant) -> (active: bool)
        requires
            old(self)@.wf(),
        ensures
            (final(self)@, active) == old(self)@.client_arrived(client, at),
            final(self)@.wf(),
    {
        match self.consume_attempt_for_transport_init_and_bind_with_token(
            client.entity,
            client.attempt_token,
            at,
        ) {
            Some(_) => self.set_active_client_if_current(client),
            None => false,
        }
    }

    /// The server let a client in; its world may not have a name yet.
    pub fn observe_login(&mut self, client: ClientRef, world_name: Option<String>, at: UtcInstant)
        requires
            old(self)@.wf(),
        ensures
            !old(self)@.client_acts(client) ==> final(self)@ == old(self)@,
            old(self)@.client_acts(client) ==> exists|version: String, dimension: String|
                version_text(version@) && dimension@ == world_text(world_name) && final(self)@ == #[trigger] old(self)@.logged_in_and_followed(
                    version,
                    dimension,
                    at,
                ),
            final(self)@.wf(),
    {
        if !self.client_may_act(client) {
            return;
        }
        let dimension = match world_name {
            Some(name) => name,
            None => DEFAULT_DIMENSION.to_owned(),
        };
        let version = GAME_VERSION.to_owned();
        let ghost words = (version, dimension);
        self.emit_logged_in(version, dimension, at);
        assert(self@ == old(self)@.logged_in_and_followed(words.0, words.1, at));
    }

    /// A client stands in the world. Tells whether the player was dead before;
    /// nothing if the client may not act.
    pub fn admit_spawn(&mut self, client: ClientRef, world: u64) -> (was_dead: Option<bool>)
        requires
            old(self)@.wf(),
        ensures
            was_dead == (if old(self)@.client_acts(client) {
                Some(old(self)@.flags.death_reported)
            } else {
                None
            }),
            final(self)@ == (if old(self)@.client_acts(client) {
                old(self)@.spawn_marked().world_set(world)
            } else {
                old(self)@
            }),
            final(self)@.wf(),
    {
        if !self.client_may_act(client) {
            return None;
        }
        let was_dead = self.flags.death_reported;
        self.put_flags(RuntimeFlags { ready: true, death_reported: false, ..self.flags });
        let _ = self.set_world_if_running(world);
        Some(was_dead)
    }

    fn tell_spawn(&mut self, snapshot: &Arc<MinecraftSnapshotV1>, was_dead: bool, at: UtcInstant)
        requires
            old(self)@.wf(),
        ensures
            final(self)@ == old(self)@.spawn_told(*snapshot, was_dead, at),
            final(self)@.wf(),
    {
        if was_dead {
            self.emit_respawned(snapshot.world.dimension.clone(), at);
        }
        self.emit_ready(snapshot.snapshot_revision, at);
        self.emit_snapshot(snapshot, FactSource::ServerObserved, at);
    }

    fn begin_run(&mut self) -> (next: SpawnFollowUp)
        requires
            old(self)@.wf(),
        ensures
            (final(self)@, next) == old(self)@.run_begun(),
            final(self)@.wf(),
    {
        if !self.command_execution_allowed() {
            return SpawnFollowUp { chat: None, stop_after_ms: None };
        }
        let chat = if self.flags.initial_chat_sent {
            None
        } else {
            self.config.initial_chat.clone()
        };
        let stop_after_ms = if !self.flags.timer_started && self.config.auto_stop {
            Some(self.config.duration_ms)
        } else {
            None
        };
        self.put_flags(
            RuntimeFlags { initial_chat_sent: true, timer_started: true, ..self.flags },
        );
        SpawnFollowUp { chat, stop_after_ms }
    }

    /// Completes a spawn with the snapshot that was published for it, if any.
    pub fn complete_spawn(
        &mut self,
        snapshot: Option<Arc<MinecraftSnapshotV1>>,
        was_dead: bool,
        at: UtcInstant,
    ) -> (next: SpawnFollowUp)
        requires
            old(self)@.wf(),
        ensures
            (final(self)@, next) == old(self)@.spawn_completed(snapshot, was_dead, at),
            final(self)@.wf(),
    {
        match snapshot {
            Some(snapshot) => {
                if !self.set_dimension_if_running(snapshot.world.dimension.clone()) {
                    return SpawnFollowUp { chat: None, stop_after_ms: None };
                }
                self.tell_spawn(&snapshot, was_dead, at);
            },
            None => {
                let revision: u64 = self.counters.snapshot_revision;
                self.emit_ready(revision, at);
            },
        }
        self.begin_run()
    }

    /// Reports what was said, if the client is the owner's.
    pub fn observe_chat(
        &mut self,
        client: ClientRef,
        sender_username: Option<String>,
        plain_text: String,
        at: UtcInstant,
    )
        requires
            old(self)@.wf(),
        ensures
            final(self)@ == (if old(self)@.owned_by(client) {
                old(self)@.emitted_if_running(
                    FactSource::ServerObserved,
                    BackendEventPayload::Chat(
                        ChatEvent {
                            sender_username,
                            plain_text,
                            position: Some(ChatPosition::Chat),
                            verified: None,
                        },
                    ),
                    at,
                )
            } else {
                old(self)@
            }),
            final(self)@.wf(),
    {
        if self.client_is_current_owner(client) {
            let chat = ChatEvent {
                sender_username,
                plain_text,
                position: Some(ChatPosition::Chat),
                verified: None,
            };
            let _ = self.emit_if_running(
                FactSource::ServerObserved,
                BackendEventPayload::Chat(chat),
                at,
            );
        }
    }

    /// Reports a change of the player list, if the client is the owner's.
    pub fn observe_player_list(&mut self, client: ClientRef, change: PlayerListEvent, at: UtcInstant)
        requires
            old(self)@.wf(),
        ensures
            final(self)@ == (if old(self)@.owned_by(client) {
                old(self)@.emitted_if_running(
                    FactSource::ServerObserved,
                    BackendEventPayload::PlayerList(change),
                    at,
                )
            } else {
                old(self)@
            }),
            final(self)@.wf(),
    {
        if self.client_is_current_owner(client) {
            let _ = self.emit_if_running(
                FactSource::ServerObserved,
                BackendEventPayload::PlayerList(change),
                at,
            );
        }
    }

    /// Tells whether the death of this client's player would be taken now: only
    /// then are its inputs released.
    pub fn client_death_is_admissible(&self, client: ClientRef) -> (r: bool)
        ensures
            r == (self@.owned_by(client) && self@.death_admissible()),
    {
        self.client_is_current_owner(client) && self.death_is_admissible()
    }

    /// Counts a tick. Tells whether a predicted snapshot is due at it.
    pub fn admit_tick(&mut self, client: ClientRef) -> (snapshot_due: bool)
        requires
            old(self)@.wf(),
        ensures
            snapshot_due == old(self)@.snapshot_due(client),
            final(self)@ == (if old(self)@.client_acts(client) && old(self)@.flags.ready {
                old(self)@.tick_counted()
            } else {
                old(self)@
            }),
            final(self)@.wf(),
    {
        if !self.client_may_act(client) || !self.flags.ready {
            return false;
        }
        let tick: u64 = self.counters.tick_revision;
        self.put_counters(RuntimeCounters { tick_revision: next_number(tick), ..self.counters });
        tick % TICKS_PER_SNAPSHOT == 0
    }

    /// Takes the follow-up of a transport failure. Tells whether the client is
    /// to be disconnected.
    pub fn follow_connection_failure(&mut self, client: ClientRef) -> (disconnect: bool)
        requires
            old(self)@.wf(),
        ensures
            disconnect == (old(self)@.failure_followup_due(client.entity, client.attempt_token)
                && old(self)@.lifecycle_open()),
            final(self)@ == (if old(self)@.failure_followup_due(
                client.entity,
                client.attempt_token,
            ) {
                old(self)@.with_producer(
                    ProducerView {
                        pending_connection_failure: None,
                        ..old(self)@.producer
                    },
                )
            } else {
                old(self)@
            }),
            final(self)@.wf(),
    {
        self.take_canonical_connection_failure_followup_with_token(
            client.entity,
            client.attempt_token,
        ) && self.disconnect_allowed()
    }

    fn release_reconnect(&mut self)
        requires
            old(self)@.wf(),
        ensures
            final(self)@ == old(self)@.reconnect_released(),
            final(self)@.wf(),
    {
        self.put_flags(RuntimeFlags { reconnect_pending: false, ..self.flags });
    }

    fn settle_close(&mut self, close: BackendClose, at: UtcInstant) -> (next: SwarmDisconnect)
        requires
            old(self)@.wf(),
        ensures
            (final(self)@, next) == old(self)@.close_settled(close, at),
            final(self)@.wf(),
    {
        if self.flags.stopping || close.deliberate {
            self.release_reconnect();
            return SwarmDisconnect::Ended;
        }
        if !close.retryable || !self.config.reconnect.enabled {
            let failure = self.failure_for_close(&close);
            let _ = self.emit_faulted(failure, at);
            self.request_shutdown();
            self.release_reconnect();
            return SwarmDisconnect::Faulted;
        }
        SwarmDisconnect::Retry { close }
    }

    /// The client's manager reports a disconnect: the last chance to notice one.
    pub fn handle_swarm_disconnect(&mut self, attempt_token: Option<u64>, at: UtcInstant) -> (next:
        SwarmDisconnect)
        requires
            old(self)@.wf(),
        ensures
            (final(self)@, next) == old(self)@.swarm_disconnected(attempt_token, at),
            final(self)@.wf(),
    {
        if !self.claim_reconnect_with_token(attempt_token) {
            return SwarmDisconnect::Ignored;
        }
        if self.flags.stopping {
            self.release_reconnect();
            return SwarmDisconnect::Ended;
        }
        let close = self.mark_disconnected(None, at);
        self.settle_close(close, at)
    }

    /// A retry's client was added. It is bound while the reservation still
    /// holds; otherwise it has to be disconnected. Either way the retry is over.
    pub fn complete_retry(&mut self, token: u64, client: ClientRef, at: UtcInstant) -> (bound: bool)
        requires
            old(self)@.wf(),
        ensures
            (final(self)@, bound) == old(self)@.retry_returned(token, client, at),
            final(self)@.wf(),
    {
        let bound = self.bind_reconnect_return_with_token(
            token,
            client.entity,
            client.attempt_token,
            at,
        ).is_some();
        if bound {
            let _ = self.set_active_client_if_current(client);
        }
        self.finish_reconnect_attempt(token);
        bound
    }
}

/// The first chat line is sent, and the clock of the run started, at most once.
pub proof fn law_a_run_begins_once(runtime: RuntimeView)
    requires
        runtime.running(),
    ensures
        runtime.run_begun().0.run_begun().1 == (SpawnFollowUp { chat: None, stop_after_ms: None }),
        runtime.run_begun().0.run_begun().0 == runtime.run_begun().0,
{
}

/// Once a disconnect is being taken care of, every further report of it is ignored.
pub proof fn law_reconnects_are_claimed_once(
    runtime: RuntimeView,
    token: Option<u64>,
    other: Option<u64>,
    at: UtcInstant,
)
    requires
        runtime.reconnect_claimable(token),
    ensures
        runtime.reconnect_claimed(token).swarm_disconnected(other, at) == (
            runtime.reconnect_claimed(token),
            SwarmDisconnect::Ignored,
        ),
{
}

/// A disconnect of a run that stops leads to no retry.
pub proof fn law_no_retry_once_stopping(runtime: RuntimeView, close: BackendClose, at: UtcInstant)
    requires
        runtime.flags.stopping || close.deliberate,
    ensures
        runtime.close_settled(close, at).1 == SwarmDisconnect::Ended,
        runtime.close_settled(close, at).0 == runtime.reconnect_released(),
{
}

/// A login is reported with the version of the game that the client speaks, and
/// with the overworld where the world has no name.
pub proof fn law_a_login_names_game_and_world(version: Seq<char>, world_name: Option<String>)
    ensures
        version_text(version) <==> version == "26.1.2"@,
        world_name is None ==> world_text(world_name) == "minecraft:overworld"@,
        world_name matches Some(name) ==> world_text(world_name) == name@,
{
}

/// A client acts exactly as the owner of the stream in the current epoch, while
/// the runtime runs.
pub proof fn law_when_a_client_acts(runtime: RuntimeView, entity: u64, token: u64)
    ensures
        runtime.client_acts(ClientRef { entity, attempt_token: Some(token) }) <==> {
            &&& runtime.producer.owner == Some((entity, runtime.writer.connection_epoch))
            &&& runtime.producer.bindings.contains((token, runtime.writer.connection_epoch))
            &&& !runtime.flags.stopping
            &&& !runtime.flags.disconnect_reported
        },
{
}

/// Every fifth tick of a player in the world is worth a snapshot, the first one
/// included, and every such tick counts.
pub proof fn law_every_fifth_tick_is_worth_a_snapshot(runtime: RuntimeView, client: ClientRef)
    requires
        runtime.counters.tick_revision < u64::MAX,
    ensures
        runtime.snapshot_due(client) <==> runtime.owned_by(client) && !runtime.flags.stopping
            && !runtime.flags.disconnect_reported && runtime.flags.ready
            && runtime.counters.tick_revision % 5 == 0,
        runtime.tick_counted() == (RuntimeView {
            counters: RuntimeCounters {
                tick_revision: (runtime.counters.tick_revision + 1) as u64,
                ..runtime.counters
            },
            ..runtime
        }),
{
}

/// A client that arrives becomes the active one exactly if it got its attempt and
/// may act; the attempt goes as far as it went either way.
pub proof fn law_an_arriving_client_becomes_active(
    runtime: RuntimeView,
    client: ClientRef,
    at: UtcInstant,
)
    ensures
        ({
            let (after, active) = runtime.client_arrived(client, at);
            let (consumed, epoch) = runtime.init_consumed(client.entity, client.attempt_token, at);
            &&& active <==> epoch is Some && consumed.owned_by(client) && !consumed.flags.stopping
                && !consumed.flags.disconnect_reported
            &&& active ==> after.connection.active_client == Some(client)
            &&& active ==> after.connection.state == consumed.connection.state && after.flags
                == consumed.flags && after.producer == consumed.producer
            &&& !active ==> after == consumed
        }),
{
}

/// The first time that the player stands in the world the chat line of the
/// configuration is said, and the clock of a run that stops by itself is started;
/// never again. An ending run begins nothing.
pub proof fn law_what_a_run_begins_with(runtime: RuntimeView)
    ensures
        ({
            let (after, next) = runtime.run_begun();
            let runs = !runtime.flags.stopping && !runtime.flags.disconnect_reported;
            &&& runs && !runtime.flags.initial_chat_sent ==> next.chat
                == runtime.config.initial_chat
            &&& !runs || runtime.flags.initial_chat_sent ==> next.chat is None
            &&& next.stop_after_ms == (if runs && !runtime.flags.timer_started
                && runtime.config.auto_stop {
                Some(runtime.config.duration_ms)
            } else {
                None
            })
            &&& runs ==> after == (RuntimeView {
                flags: RuntimeFlags {
                    initial_chat_sent: true,
                    timer_started: true,
                    ..runtime.flags
                },
                ..runtime
            })
            &&& !runs ==> after == runtime
        }),
{
}

/// A player who stands in the world is alive and ready.
pub proof fn law_a_spawned_player_is_alive(runtime: RuntimeView)
    ensures
        runtime.spawn_marked() == (RuntimeView {
            flags: RuntimeFlags { ready: true, death_reported: false, ..runtime.flags },
            ..runtime
        }),
{
}

/// A spawn is told in order: after a death the respawn, with the dimension; then
/// readiness, with the snapshot; then the snapshot itself.
pub proof fn law_a_spawn_is_told_in_order(
    runtime: RuntimeView,
    snapshot: Arc<MinecraftSnapshotV1>,
    at: UtcInstant,
)
    requires
        !runtime.flags.stopping,
        !runtime.flags.disconnect_reported,
    ensures
        runtime.spawn_told(snapshot, true, at) == runtime.emitted(
            FactSource::ServerObserved,
            BackendEventPayload::Lifecycle(
                BackendLifecyclePayload::Respawned { dimension: snapshot.world.dimension },
            ),
            at,
        ).spawn_told(snapshot, false, at),
        runtime.spawn_told(snapshot, false, at) == runtime.ready_and_followed(
            snapshot.snapshot_revision,
            at,
        ).emitted(
            FactSource::ServerObserved,
            BackendEventPayload::SnapshotChanged {
                group: SnapshotGroup::World,
                snapshot_revision: snapshot.snapshot_revision,
            },
            at,
        ),
{
    lemma_ready_frame(runtime, snapshot.snapshot_revision, at);
}

/// Being ready changes what is shown and the timers, and ends nothing.
pub proof fn lemma_ready_frame(runtime: RuntimeView, snapshot_revision: u64, at: UtcInstant)
    requires
        runtime.running(),
    ensures
        ({
            let after = runtime.ready_and_followed(snapshot_revision, at);
            &&& after.flags == (RuntimeFlags { ready: true, ..runtime.flags })
            &&& after.config == runtime.config
            &&& after.connection.state == (crate::contract::BackendState::Ready {
                epoch: runtime.epoch(),
                attempt_id: runtime.writer.connection_attempt_id,
                ready_at: at,
            })
            &&& after.writer == runtime.writer.advanced()
            &&& after.connection.reported_dimension == runtime.connection.reported_dimension
            &&& after.running()
        }),
{
    reveal(RuntimeView::became_ready);
    let shown = runtime.with_flags(
        RuntimeFlags { ready: true, ..runtime.flags },
    ).phase_advanced().stable_advanced().with_state(
        crate::contract::BackendState::Ready {
            epoch: runtime.epoch(),
            attempt_id: runtime.writer.connection_attempt_id,
            ready_at: at,
        },
    );
    crate::guarantees::lemma_enqueued_frame(
        shown,
        FactSource::ServerObserved,
        BackendEventPayload::Lifecycle(BackendLifecyclePayload::Ready { snapshot_revision }),
        at,
    );
    let step = runtime.became_ready(snapshot_revision, at);
    crate::guarantees::lemma_followed_frame((step.0, step.1));
}

/// The dimension that a snapshot shows.
pub open spec fn dimension_of(snapshot: Arc<MinecraftSnapshotV1>) -> String {
    snapshot.world.dimension
}

/// A spawn that is completed shows the player as ready since then, in the
/// dimension of its snapshot, and begins the run. Without a snapshot the player is
/// ready all the same.
pub proof fn law_a_completed_spawn_is_ready(
    runtime: RuntimeView,
    snapshot: Option<Arc<MinecraftSnapshotV1>>,
    was_dead: bool,
    at: UtcInstant,
)
    requires
        !runtime.flags.stopping,
        !runtime.flags.disconnect_reported,
    ensures
        ({
            let (after, next) = runtime.spawn_completed(snapshot, was_dead, at);
            &&& after.connection.state == (crate::contract::BackendState::Ready {
                epoch: runtime.writer.connection_epoch,
                attempt_id: runtime.writer.connection_attempt_id,
                ready_at: at,
            })
            &&& after.flags == (RuntimeFlags {
                ready: true,
                initial_chat_sent: true,
                timer_started: true,
                ..runtime.flags
            })
            &&& snapshot matches Some(shown) ==> after.writer.dimension == Some(
                shown.world.dimension,
            )
            &&& snapshot is None ==> after.writer.dimension == runtime.writer.dimension
            &&& next.chat == (if runtime.flags.initial_chat_sent {
                None
            } else {
                runtime.config.initial_chat
            })
            &&& next.stop_after_ms == (if !runtime.flags.timer_started && runtime.config.auto_stop {
                Some(runtime.config.duration_ms)
            } else {
                None
            })
        }),
{
    match snapshot {
        Some(shown) => {
            let dimension = dimension_of(shown);
            let set = runtime.dimension_set(dimension);
            let respawn = BackendEventPayload::Lifecycle(
                BackendLifecyclePayload::Respawned { dimension },
            );
            crate::guarantees::lemma_emitted_frame(set, FactSource::ServerObserved, respawn, at);
            let alive = if was_dead {
                set.emitted_if_running(FactSource::ServerObserved, respawn, at)
            } else {
                set
            };
            lemma_ready_frame(alive, shown.snapshot_revision, at);
            crate::guarantees::lemma_emitted_frame(
                alive.ready_and_followed(shown.snapshot_revision, at),
                FactSource::ServerObserved,
                BackendEventPayload::SnapshotChanged {
                    group: SnapshotGroup::World,
                    snapshot_revision: shown.snapshot_revision,
                },
                at,
            );
        },
        None => {
            lemma_ready_frame(runtime, runtime.counters.snapshot_revision, at);
        },
    }
}

/// A disconnect that the client's manager reports is ignored unless it claims the
/// reconnect; then the close that it leads to is settled.
pub proof fn law_unclaimed_disconnects_are_ignored(
    runtime: RuntimeView,
    token: Option<u64>,
    at: UtcInstant,
)
    ensures
        runtime.flags.stopping || runtime.flags.reconnect_pending ==> runtime.swarm_disconnected(
            token,
            at,
        ) == (runtime, SwarmDisconnect::Ignored),
        !runtime.reconnect_claimable(token) ==> runtime.swarm_disconnected(token, at) == (
            runtime,
            SwarmDisconnect::Ignored,
        ),
        runtime.reconnect_claimable(token) ==> runtime.swarm_disconnected(token, at).1
            != SwarmDisconnect::Ignored,
{
}

/// A retry whose client was added is over: the reconnect is free again. The client
/// is bound exactly if the reservation of the retry was its to bind, or it was
/// bound already; once it may act it is the active one.
pub proof fn law_a_returned_retry_is_over(
    runtime: RuntimeView,
    token: u64,
    client: ClientRef,
    at: UtcInstant,
)
    ensures
        ({
            let (after, bound) = runtime.retry_returned(token, client, at);
            let added = runtime.attempt_bound_and_followed(
                client.entity,
                Some(token),
                false,
                client.attempt_token,
                at,
            );
            &&& bound <==> runtime.binds_reservation(
                client.entity,
                Some(token),
                false,
                client.attempt_token,
            ) || runtime.bound_already(client.entity, Some(token), false, client.attempt_token)
            &&& !after.flags.reconnect_pending
            &&& added.counters.reconnect_attempt_token == token
                ==> !after.flags.reconnect_add_pending
            &&& bound && added.client_acts(client) ==> after.connection.active_client == Some(
                client,
            )
            &&& !(bound && added.client_acts(client)) ==> after.connection == added.connection
        }),
{
}

/// From the start of a run its timers count, and its first attempt begins.
pub proof fn law_a_run_starts_with_an_attempt(runtime: RuntimeView, at: UtcInstant)
    requires
        !runtime.flags.stopping,
        !runtime.flags.stop_requested,
        runtime.writer.connection_epoch < u64::MAX,
        runtime.counters.retry_ordinal < u64::MAX,
    ensures
        ({
            let after = runtime.run_started(at);
            &&& after.flags.timers_enabled
            &&& after.writer.connection_epoch == runtime.writer.connection_epoch + 1
            &&& after.counters.retry_ordinal == runtime.counters.retry_ordinal + 1
            &&& after.connection.state is Connecting
        }),
{
    reveal(RuntimeView::attempt_begun);
    reveal(RuntimeView::attempt_cleaned);
    reveal(RuntimeView::attempt_reserved);
    reveal(RuntimeView::attempt_announced);
    reveal(RuntimeView::dispatched);
    let timed = runtime.with_flags(RuntimeFlags { timers_enabled: true, ..runtime.flags });
    let step = timed.attempt_begun(None, at);
    crate::guarantees::lemma_followed_frame((step.0, step.1->0));
}

/// A reconnect that is given up is free, and nothing else changes.
pub proof fn law_a_released_reconnect_is_free(runtime: RuntimeView)
    ensures
        runtime.reconnect_released() == (RuntimeView {
            flags: RuntimeFlags { reconnect_pending: false, ..runtime.flags },
            ..runtime
        }),
{
}

} // verus!
