//! Instants of UTC time and their arithmetic.

use vstd::prelude::*;

verus! {

/// The first second of the representable range, counted from 1970-01-01T00:00:00Z.
pub const MIN_SECONDS: i64 = -8334601228800;

/// The last second of the representable range.
pub const MAX_SECONDS: i64 = 8210266876799;

/// A UTC instant: whole seconds since 1970 and the nanoseconds after them.
#[derive(Clone, Copy, Debug, PartialEq, Eq)]
pub struct UtcInstant {
    pub seconds: i64,
    pub nanos: u32,
}

impl UtcInstant {
    /// The instant lies in the representable range.
    pub open spec fn valid(self) -> bool {
        MIN_SECONDS <= self.seconds <= MAX_SECONDS && self.nanos < 1_000_000_000
    }

    /// Nanoseconds since 1970.
    pub open spec fn total_nanos(self) -> int {
        self.seconds * 1_000_000_000 + self.nanos
    }

    /// Tells whether the instant lies in the representable range.
    pub fn is_valid(&self) -> (r: bool)
        ensures
            r == self.valid(),
    {
        MIN_SECONDS <= self.seconds && self.seconds <= MAX_SECONDS && self.nanos < 1_000_000_000
    }

    /// The instant `millis` milliseconds after 1970, if it is representable.
    pub fn from_millis(millis: i64) -> (r: Option<UtcInstant>)
        ensures
            r matches Some(at) ==> at.valid() && at.total_nanos() == millis * 1_000_000,
            r is Some <==> MIN_SECONDS * 1000 <= millis < (MAX_SECONDS + 1) * 1000,
    {
        let quotient: i64 = millis / 1000;
        let rest: i64 = millis % 1000;
        let seconds: i64 = if rest < 0 {
            quotient - 1
        } else {
            quotient
        };
        let part: i64 = if rest < 0 {
            rest + 1000
        } else {
            rest
        };
        let at = UtcInstant { seconds, nanos: (part * 1_000_000) as u32 };
        if at.is_valid() {
            Some(at)
        } else {
            None
        }
    }
}

/// The last representable instant.
pub open spec fn last_instant() -> UtcInstant {
    UtcInstant { seconds: MAX_SECONDS, nanos: 999_999_999 }
}

/// Adds milliseconds to an instant with `chrono::DateTime::checked_add_signed`.
///
/// Claimed of it: the sum is exact, and it is withheld exactly when it lies
/// beyond the last representable instant. Instants are handed over as whole
/// seconds and nanoseconds, so no leap second is ever involved.
#[verifier::external_body]
fn checked_add_millis(at: UtcInstant, millis: i64) -> (sum: Option<UtcInstant>)
    requires
        at.valid(),
        millis >= 0,
    ensures
        sum matches Some(r) ==> r.valid() && r.total_nanos() == at.total_nanos() + millis
            * 1_000_000,
        sum is Some <==> at.total_nanos() + millis * 1_000_000 <= last_instant().total_nanos(),
{
    let start = chrono::DateTime::<chrono::Utc>::from_timestamp(at.seconds, at.nanos)
        .expect("instant within range");
    start.checked_add_signed(chrono::Duration::milliseconds(millis)).map(
        |sum| UtcInstant { seconds: sum.timestamp(), nanos: sum.timestamp_subsec_nanos() },
    )
}

/// The RFC 3339 text of an instant, as `chrono::DateTime::to_rfc3339` writes it.
pub uninterp spec fn rfc3339_text(seconds: i64, nanos: u32) -> Seq<char>;

/// Renders an instant with `chrono::DateTime::to_rfc3339`.
///
/// Claimed of it: the text is a function of the instant alone.
#[verifier::external_body]
fn render_rfc3339(at: UtcInstant) -> (text: String)
    requires
        at.valid(),
    ensures
        text@ == rfc3339_text(at.seconds, at.nanos),
{
    chrono::DateTime::<chrono::Utc>::from_timestamp(at.seconds, at.nanos)
        .expect("instant within range")
        .to_rfc3339()
}

/// The instant that a text names, as seconds since 1970 and the nanoseconds
/// after them, as `chrono` reads it; nothing, where it reads none.
pub uninterp spec fn rfc3339_instant(text: Seq<char>) -> Option<(i64, u32)>;

/// Reads an instant with the `FromStr` of `chrono::DateTime<Utc>`.
///
/// Claimed of it: whether a text names an instant, and which one, is a function
/// of the text alone. In a leap second the nanoseconds go beyond a second.
#[verifier::external_body]
fn read_rfc3339(text: &str) -> (at: Option<UtcInstant>)
    ensures
        at == (match rfc3339_instant(text@) {
            Some((seconds, nanos)) => Some(UtcInstant { seconds, nanos }),
            None => None,
        }),
{
    text.parse::<chrono::DateTime<chrono::Utc>>().ok().map(
        |at| UtcInstant { seconds: at.timestamp(), nanos: at.timestamp_subsec_nanos() },
    )
}

impl UtcInstant {
    /// The instant that a text names, if it names one.
    pub fn parse(text: &str) -> (at: Option<UtcInstant>)
        ensures
            at == (match rfc3339_instant(text@) {
                Some((seconds, nanos)) => Some(UtcInstant { seconds, nanos }),
                None => None,
            }),
    {
        read_rfc3339(text)
    }

    /// The RFC 3339 text of the instant.
    pub fn to_rfc3339(&self) -> (text: String)
        requires
            self.valid(),
        ensures
            text@ == rfc3339_text(self.seconds, self.nanos),
    {
        render_rfc3339(*self)
    }
}

/// The instant with a given count of nanoseconds since 1970.
pub open spec fn instant_of(total: int) -> UtcInstant {
    UtcInstant { seconds: (total / 1_000_000_000) as i64, nanos: (total % 1_000_000_000) as u32 }
}

/// When a delay that starts at `now` ends; past the range, the last instant.
pub open spec fn retry_instant(now: UtcInstant, delay_ms: u64) -> UtcInstant {
    let millis: int = if delay_ms > i64::MAX {
        i64::MAX as int
    } else {
        delay_ms as int
    };
    let end = now.total_nanos() + millis * 1_000_000;
    if end <= last_instant().total_nanos() {
        instant_of(end)
    } else {
        last_instant()
    }
}

/// The instant at which a retry that waits `delay_ms` from `now` is due.
pub fn retry_at_with_delay(now: UtcInstant, delay_ms: u64) -> (at: UtcInstant)
    requires
        now.valid(),
    ensures
        at.valid(),
        at == retry_instant(now, delay_ms),
{
    let millis: i64 = if delay_ms > i64::MAX as u64 {
        i64::MAX
    } else {
        delay_ms as i64
    };
    match checked_add_millis(now, millis) {
        Some(at) => at,
        None => UtcInstant { seconds: MAX_SECONDS, nanos: 999_999_999 },
    }
}

/// A retry is due after exactly its delay, unless that lies beyond the last
/// instant; it is never due before the moment it is scheduled at.
pub proof fn law_retry_is_not_in_the_past(now: UtcInstant, delay_ms: u64)
    requires
        now.valid(),
    ensures
        now.total_nanos() <= retry_instant(now, delay_ms).total_nanos(),
        retry_instant(now, delay_ms).valid(),
        retry_instant(now, delay_ms) != last_instant() ==> retry_instant(
            now,
            delay_ms,
        ).total_nanos() == now.total_nanos() + delay_ms * 1_000_000,
{
}

/// A longer delay is never due earlier.
pub proof fn law_retry_order(now: UtcInstant, shorter: u64, longer: u64)
    requires
        now.valid(),
        shorter <= longer,
    ensures
        retry_instant(now, shorter).total_nanos() <= retry_instant(now, longer).total_nanos(),
{
}

/// A retry is due exactly its delay from now, as long as there is such an
/// instant; after that, at the last one.
pub proof fn law_a_retry_is_due_after_its_delay(now: UtcInstant, delay_ms: u64)
    requires
        now.valid(),
        delay_ms <= i64::MAX,
    ensures
        ({
            let due = retry_instant(now, delay_ms);
            let end = now.seconds * 1_000_000_000 + now.nanos + delay_ms * 1_000_000;
            if end / 1_000_000_000 <= 8_210_266_876_799 {
                &&& due.seconds * 1_000_000_000 + due.nanos == end
                &&& due.nanos < 1_000_000_000
            } else {
                due.seconds == 8_210_266_876_799 && due.nanos == 999_999_999
            }
        }),
{
}

/// A delay that no instant is far enough for ends at the last one.
pub proof fn law_endless_delays_end_at_the_last_instant(now: UtcInstant, delay_ms: u64)
    requires
        now.valid(),
        delay_ms > 0x7FFF_FFFF_FFFF_FFFF,
    ensures
        retry_instant(now, delay_ms).seconds == 8_210_266_876_799,
        retry_instant(now, delay_ms).nanos == 999_999_999,
{
}

} // verus!
