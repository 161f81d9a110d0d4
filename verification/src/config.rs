//! Run configuration, retry timing and the tokens of armed timers.

use vstd::prelude::*;
use vstd::string::*;

use crate::number::Double;
use crate::text::{blank, chars_of, is_blank};
use crate::time::{retry_at_with_delay, retry_instant, UtcInstant};

verus! {

/// How long each phase of a connection may take, in milliseconds.
#[derive(Clone, Copy, Debug, PartialEq, Eq)]
pub struct BackendTimeouts {
    pub connect_ms: u64,
    pub login_ms: u64,
    pub spawn_ms: u64,
    pub stop_ms: u64,
}

/// When and how often a lost connection is tried again.
#[derive(Clone, Copy, Debug, PartialEq, Eq)]
pub struct ReconnectPolicy {
    pub enabled: bool,
    pub initial_delay_ms: u64,
    pub multiplier: Double,
    pub max_delay_ms: u64,
    pub jitter_ratio: Double,
    pub stable_reset_ms: u64,
}

/// The configuration of one run.
#[derive(Debug, PartialEq, Eq)]
pub struct RunConfig {
    pub host: String,
    pub port: u16,
    pub username: String,
    pub world_id: String,
    /// How long a run lasts that stops by itself, in milliseconds.
    pub duration_ms: u64,
    pub timeouts: BackendTimeouts,
    pub reconnect: ReconnectPolicy,
    /// Whether the run stops by itself.
    pub auto_stop: bool,
    /// Whether events are also written to standard output.
    pub emit_stdout: bool,
    /// A chat line to send after the first spawn.
    pub initial_chat: Option<String>,
}

impl Clone for RunConfig {
    fn clone(&self) -> (r: Self)
        ensures
            r == *self,
    {
        RunConfig {
            host: self.host.clone(),
            port: self.port,
            username: self.username.clone(),
            world_id: self.world_id.clone(),
            duration_ms: self.duration_ms,
            timeouts: self.timeouts,
            reconnect: self.reconnect,
            auto_stop: self.auto_stop,
            emit_stdout: self.emit_stdout,
            initial_chat: self.initial_chat.clone(),
        }
    }
}

/// The default phase timeouts.
pub open spec fn default_timeouts() -> BackendTimeouts {
    BackendTimeouts { connect_ms: 10_000, login_ms: 20_000, spawn_ms: 30_000, stop_ms: 5_000 }
}

/// The default policy: start at a second, double up to half a minute, jitter by a fifth.
pub open spec fn default_reconnect() -> ReconnectPolicy {
    ReconnectPolicy {
        enabled: true,
        initial_delay_ms: 1_000,
        multiplier: Double { bits: 0x4000_0000_0000_0000 },
        max_delay_ms: 30_000,
        jitter_ratio: Double { bits: 0x3FC9_9999_9999_999A },
        stable_reset_ms: 60_000,
    }
}

impl Default for RunConfig {
    fn default() -> (config: Self)
        ensures
            config.host@ == "127.0.0.1"@,
            config.port == 25565,
            config.username@ == "MineIntentBot"@,
            config.world_id@ == "paper-local-world"@,
            config.duration_ms == 30_000,
            config.timeouts == default_timeouts(),
            config.reconnect == default_reconnect(),
            config.auto_stop,
            config.emit_stdout,
            config.initial_chat is None,
    {
        RunConfig {
            host: "127.0.0.1".to_owned(),
            port: 25565,
            username: "MineIntentBot".to_owned(),
            world_id: "paper-local-world".to_owned(),
            duration_ms: 30_000,
            timeouts: BackendTimeouts {
                connect_ms: 10_000,
                login_ms: 20_000,
                spawn_ms: 30_000,
                stop_ms: 5_000,
            },
            reconnect: ReconnectPolicy {
                enabled: true,
                initial_delay_ms: 1_000,
                multiplier: Double { bits: 0x4000_0000_0000_0000 },
                max_delay_ms: 30_000,
                jitter_ratio: Double { bits: 0x3FC9_9999_9999_999A },
                stable_reset_ms: 60_000,
            },
            auto_stop: true,
            emit_stdout: true,
            initial_chat: None,
        }
    }
}

/// What is wrong with a configuration.
#[derive(Clone, Copy, Debug, PartialEq, Eq, Structural)]
pub enum ConfigError {
    HostEmpty,
    PortZero,
    Username,
    WorldIdEmpty,
    TimeoutZero,
    Multiplier,
    JitterRatio,
}

impl ConfigError {
    pub open spec fn spec_text(self) -> Seq<char> {
        match self {
            ConfigError::HostEmpty => "服务器 host 不能为空"@,
            ConfigError::PortZero => "服务器 port 不能为 0"@,
            ConfigError::Username => "offline 用户名必须是 1–16 个 ASCII 字母、数字或下划线"@,
            ConfigError::WorldIdEmpty => "world_id 不能为空"@,
            ConfigError::TimeoutZero => "transport timeout 必须大于 0"@,
            ConfigError::Multiplier => "reconnect multiplier 必须是有限且不小于 1 的数"@,
            ConfigError::JitterRatio => "reconnect jitter ratio 必须在 0 到 1 之间"@,
        }
    }

    /// The message for the user.
    pub fn text(&self) -> (r: &'static str)
        ensures
            r@ == self.spec_text(),
    {
        match self {
            ConfigError::HostEmpty => "服务器 host 不能为空",
            ConfigError::PortZero => "服务器 port 不能为 0",
            ConfigError::Username => "offline 用户名必须是 1–16 个 ASCII 字母、数字或下划线",
            ConfigError::WorldIdEmpty => "world_id 不能为空",
            ConfigError::TimeoutZero => "transport timeout 必须大于 0",
            ConfigError::Multiplier => "reconnect multiplier 必须是有限且不小于 1 的数",
            ConfigError::JitterRatio => "reconnect jitter ratio 必须在 0 到 1 之间",
        }
    }
}

/// A character that an offline user name may hold.
pub open spec fn username_char(c: char) -> bool {
    ('a' <= c && c <= 'z') || ('A' <= c && c <= 'Z') || ('0' <= c && c <= '9') || c == '_'
}

/// One to sixteen ASCII letters, digits or underscores.
pub open spec fn valid_username(name: Seq<char>) -> bool {
    1 <= name.len() <= 16 && forall|i: int|
        0 <= i < name.len() ==> username_char(#[trigger] name[i])
}

fn is_valid_username(name: &str) -> (r: bool)
    ensures
        r == valid_username(name@),
{
    let chars = chars_of(name);
    if chars.len() == 0 || chars.len() > 16 {
        return false;
    }
    let mut i: usize = 0;
    while i < chars.len()
        invariant
            chars@ == name@,
            i <= chars@.len(),
            forall|k: int| 0 <= k < i ==> username_char(#[trigger] name@[k]),
        decreases chars@.len() - i,
    {
        let c: char = chars[i];
        let valid = ('a' <= c && c <= 'z') || ('A' <= c && c <= 'Z') || ('0' <= c && c <= '9') || c
            == '_';
        if !valid {
            assert(!username_char(name@[i as int]));
            return false;
        }
        assert(username_char(name@[i as int]));
        i = i + 1;
    }
    true
}

/// The first thing that is wrong with a configuration.
pub open spec fn config_error(config: RunConfig) -> Option<ConfigError> {
    if blank(config.host@) {
        Some(ConfigError::HostEmpty)
    } else if config.port == 0 {
        Some(ConfigError::PortZero)
    } else if !valid_username(config.username@) {
        Some(ConfigError::Username)
    } else if blank(config.world_id@) {
        Some(ConfigError::WorldIdEmpty)
    } else if config.timeouts.connect_ms == 0 || config.timeouts.login_ms == 0
        || config.timeouts.spawn_ms == 0 || config.timeouts.stop_ms == 0 {
        Some(ConfigError::TimeoutZero)
    } else if !config.reconnect.multiplier.finite_at_least_one() {
        Some(ConfigError::Multiplier)
    } else if !config.reconnect.jitter_ratio.unit_interval() {
        Some(ConfigError::JitterRatio)
    } else {
        None
    }
}

/// Checks a configuration before a run starts.
pub fn validate_run_config(config: &RunConfig) -> (r: Result<(), ConfigError>)
    ensures
        r == (match config_error(*config) {
            Some(error) => Err(error),
            None => Ok(()),
        }),
{
    if is_blank(config.host.as_str()) {
        return Err(ConfigError::HostEmpty);
    }
    if config.port == 0 {
        return Err(ConfigError::PortZero);
    }
    if !is_valid_username(config.username.as_str()) {
        return Err(ConfigError::Username);
    }
    if is_blank(config.world_id.as_str()) {
        return Err(ConfigError::WorldIdEmpty);
    }
    if config.timeouts.connect_ms == 0 || config.timeouts.login_ms == 0 || config.timeouts.spawn_ms
        == 0 || config.timeouts.stop_ms == 0 {
        return Err(ConfigError::TimeoutZero);
    }
    if !config.reconnect.multiplier.is_finite_at_least_one() {
        return Err(ConfigError::Multiplier);
    }
    if !config.reconnect.jitter_ratio.is_unit_interval() {
        return Err(ConfigError::JitterRatio);
    }
    Ok(())
}

/// The default configuration is a valid one.
pub proof fn law_default_config_is_valid(config: RunConfig)
    requires
        config.host@ == "127.0.0.1"@,
        config.port == 25565,
        config.username@ == "MineIntentBot"@,
        config.world_id@ == "paper-local-world"@,
        config.timeouts == default_timeouts(),
        config.reconnect == default_reconnect(),
    ensures
        config_error(config) is None,
{
    reveal_strlit("127.0.0.1");
    reveal_strlit("MineIntentBot");
    reveal_strlit("paper-local-world");
    assert(!blank(config.host@)) by {
        assert(!crate::text::white_space(config.host@[0]));
    }
    assert(!blank(config.world_id@)) by {
        assert(!crate::text::white_space(config.world_id@[0]));
    }
    assert(config.reconnect.multiplier.finite_at_least_one());
}

/// A retry: how long it waits and when it is due.
#[derive(Clone, Copy, Debug, PartialEq, Eq)]
pub struct RetrySchedule {
    pub delay_ms: u64,
    pub retry_at: UtcInstant,
}

/// The schedule of a retry that waits `delay_ms` from `now`.
pub fn schedule_retry(now: UtcInstant, delay_ms: u64) -> (schedule: RetrySchedule)
    requires
        now.valid(),
    ensures
        schedule == (RetrySchedule { delay_ms, retry_at: retry_instant(now, delay_ms) }),
        schedule.retry_at.valid(),
{
    RetrySchedule { delay_ms, retry_at: retry_at_with_delay(now, delay_ms) }
}

/// The phases of a connection that have a deadline.
#[derive(Clone, Copy, Debug, PartialEq, Eq, Structural)]
pub enum TransportPhase {
    Connecting,
    LoggingIn,
    Spawning,
}

/// An armed phase deadline.
#[derive(Clone, Copy, Debug, PartialEq, Eq, Structural)]
pub struct PhaseDeadlineToken {
    pub epoch: u64,
    pub attempt: u64,
    pub phase: TransportPhase,
    pub generation: u64,
}

/// An armed reset of the retry count.
#[derive(Clone, Copy, Debug, PartialEq, Eq, Structural)]
pub struct StableResetToken {
    pub epoch: u64,
    pub attempt: u64,
    pub generation: u64,
}

/// An armed stop watchdog.
#[derive(Clone, Copy, Debug, PartialEq, Eq, Structural)]
pub struct StopWatchdogToken {
    pub generation: u64,
}

/// A counter after an increment that stops at the largest number.
pub open spec fn checked_next(counter: u64) -> u64 {
    if counter == u64::MAX {
        counter
    } else {
        (counter + 1) as u64
    }
}

/// Increments a counter, unless it has reached the largest number.
pub fn checked_increment(counter: &mut u64) -> (next: Option<u64>)
    ensures
        *final(counter) == checked_next(*old(counter)),
        next == (if *old(counter) == u64::MAX {
            None
        } else {
            Some(*final(counter))
        }),
{
    if *counter == u64::MAX {
        None
    } else {
        *counter = *counter + 1;
        Some(*counter)
    }
}

/// The state after one step of the jitter generator.
pub open spec fn next_seed(seed: u64) -> u64 {
    ((seed * 6_364_136_223_846_793_005 + 1) % 0x1_0000_0000_0000_0000) as u64
}

/// Draws the numerator of a fraction of two to the power of 53.
pub fn next_reconnect_random(seed: &mut u64) -> (numerator: u64)
    ensures
        *final(seed) == next_seed(*old(seed)),
        numerator == *final(seed) / 2048,
        numerator < 0x20_0000_0000_0000,
{
    let product: u64 = seed.wrapping_mul(6_364_136_223_846_793_005);
    let next: u64 = product.wrapping_add(1);
    proof {
        let s = *seed as int;
        let m = s * 6_364_136_223_846_793_005;
        let w = 0x1_0000_0000_0000_0000int;
        assert(product as int == m % w);
        vstd::arithmetic::div_mod::lemma_add_mod_noop(m, 1, w);
    }
    *seed = next;
    next / 2048
}

/// A configuration is taken exactly if every part of it can be used; otherwise
/// the first part that cannot be is told.
pub proof fn law_only_usable_configurations_are_taken(config: RunConfig)
    ensures
        ({
            let host = exists|i: int|
                0 <= i < config.host@.len() && !crate::text::white_space(
                    #[trigger] config.host@[i],
                );
            let name = 1 <= config.username@.len() <= 16 && forall|i: int|
                0 <= i < config.username@.len() ==> {
                    let c = #[trigger] config.username@[i];
                    ('a' <= c && c <= 'z') || ('A' <= c && c <= 'Z') || ('0' <= c && c <= '9') || c
                        == '_'
                };
            let world = exists|i: int|
                0 <= i < config.world_id@.len() && !crate::text::white_space(
                    #[trigger] config.world_id@[i],
                );
            let times = config.timeouts.connect_ms > 0 && config.timeouts.login_ms > 0
                && config.timeouts.spawn_ms > 0 && config.timeouts.stop_ms > 0;
            let growth = config.reconnect.multiplier.finite_at_least_one();
            let jitter = config.reconnect.jitter_ratio.unit_interval();
            config_error(config) == (if !host {
                Some(ConfigError::HostEmpty)
            } else if config.port == 0 {
                Some(ConfigError::PortZero)
            } else if !name {
                Some(ConfigError::Username)
            } else if !world {
                Some(ConfigError::WorldIdEmpty)
            } else if !times {
                Some(ConfigError::TimeoutZero)
            } else if !growth {
                Some(ConfigError::Multiplier)
            } else if !jitter {
                Some(ConfigError::JitterRatio)
            } else {
                None
            })
        }),
{
    assert(valid_username(config.username@) == (1 <= config.username@.len() <= 16 && forall|i: int|
        0 <= i < config.username@.len() ==> {
            let c = #[trigger] config.username@[i];
            ('a' <= c && c <= 'z') || ('A' <= c && c <= 'Z') || ('0' <= c && c <= '9') || c == '_'
        })) by {
        assert forall|i: int| 0 <= i < config.username@.len() implies username_char(
            #[trigger] config.username@[i],
        ) == ({
            let c = config.username@[i];
            ('a' <= c && c <= 'z') || ('A' <= c && c <= 'Z') || ('0' <= c && c <= '9') || c == '_'
        }) by {}
    }
}

/// A counter that stops at the largest number never repeats one below it.
pub proof fn law_checked_counters_go_up(counter: u64)
    ensures
        counter < u64::MAX ==> checked_next(counter) == counter + 1,
        counter == u64::MAX ==> checked_next(counter) == u64::MAX,
{
}

/// Left to its defaults, a run waits ten seconds for a connection, twenty for a
/// login, thirty for the world and five for a stop. A lost connection is tried
/// again after a second, then after twice as long each time, up to half a minute,
/// and starts over once it was stable for a minute.
pub proof fn law_the_defaults(timeouts: BackendTimeouts, policy: ReconnectPolicy)
    requires
        timeouts == default_timeouts(),
        policy == default_reconnect(),
    ensures
        timeouts.connect_ms == 10 * 1000,
        timeouts.login_ms == 20 * 1000,
        timeouts.spawn_ms == 30 * 1000,
        timeouts.stop_ms == 5 * 1000,
        policy.enabled,
        policy.initial_delay_ms == 1000,
        policy.max_delay_ms == 30 * 1000,
        policy.stable_reset_ms == 60 * 1000,
        !policy.multiplier.negative(),
        policy.multiplier.exponent() - 1023 == 1,
        policy.multiplier.significand() == 0x10_0000_0000_0000,
        !policy.jitter_ratio.negative(),
        policy.jitter_ratio.exponent() - 1023 == -3,
        5 * policy.jitter_ratio.significand() == 8 * 0x10_0000_0000_0000 + 2,
{
}

/// The jitter generator steps by one multiplication and one addition, modulo two
/// to the power of 64.
pub proof fn law_the_jitter_generator_steps(seed: u64)
    ensures
        exists|wraps: int|
            #[trigger] wrapped(next_seed(seed), wraps) == seed * 6_364_136_223_846_793_005 + 1,
{
    let sum = seed * 6_364_136_223_846_793_005 + 1;
    let wraps = sum / 0x1_0000_0000_0000_0000;
    assert(wrapped(next_seed(seed), wraps) == sum);
}

/// The number that a word stands for once it has wrapped so many times.
pub open spec fn wrapped(word: u64, wraps: int) -> int {
    word + wraps * 0x1_0000_0000_0000_0000
}

} // verus!
