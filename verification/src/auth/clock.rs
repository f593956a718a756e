use vstd::prelude::*;

use crate::auth::config::TimeSpan;

verus! {

/// A point in time: seconds since the Unix epoch and the nanoseconds beyond them.
#[derive(Debug, Clone, Copy)]
pub struct UtcInstant {
    pub secs: i64,
    pub nanos: u32,
}

/// A signed length of time as chrono's `TimeDelta` holds it: whole seconds and a
/// nanoseconds part in `0..1_000_000_000`.
#[derive(Debug, Clone, Copy, PartialEq, Eq, Structural)]
pub struct Delta {
    pub secs: i64,
    pub nanos: i32,
}

/// The largest `TimeDelta` chrono represents is `i64::MAX` milliseconds: this many
/// whole seconds ...
pub open spec fn max_delta_secs() -> int {
    9_223_372_036_854_775
}

/// ... and this many nanoseconds beyond them.
pub open spec fn max_delta_nanos() -> int {
    807_000_000
}

/// What `TimeDelta::from_std` gives for a duration: the same length when it is at
/// most the largest `TimeDelta`, otherwise nothing.
pub open spec fn delta_from_span(span: TimeSpan) -> Option<Delta> {
    if span.secs < max_delta_secs() || (span.secs == max_delta_secs() && span.nanos <= max_delta_nanos()) {
        Some(Delta { secs: span.secs as i64, nanos: span.nanos as i32 })
    } else {
        None
    }
}

/// `chrono::TimeDelta::from_std` on `Duration::new(span.secs, span.nanos)`, the
/// result read back with `num_seconds` and `subsec_nanos`.
///
/// The contract is the function's source in a few lines: it refuses durations
/// whose seconds exceed `TimeDelta::MAX`'s or that pass its nanoseconds at equal
/// seconds, and otherwise keeps seconds and nanoseconds, which `num_seconds` and
/// `subsec_nanos` give back unchanged for a non-negative delta.
#[verifier::external_body]
pub(crate) fn delta_from_std(span: TimeSpan) -> (r: Option<Delta>)
    requires
        span.wf(),
    ensures
        r == delta_from_span(span),
{
    match chrono::TimeDelta::from_std(std::time::Duration::new(span.secs, span.nanos)) {
        Ok(d) => Some(Delta { secs: d.num_seconds(), nanos: d.subsec_nanos() }),
        Err(_) => None,
    }
}

/// The whole seconds of a delta, rounded toward zero, as chrono's
/// `TimeDelta::num_seconds` computes them.
pub open spec fn delta_num_seconds(d: Delta) -> int {
    if d.secs < 0 && d.nanos > 0 {
        d.secs + 1
    } else {
        d.secs as int
    }
}

impl Delta {
    /// The whole seconds of this delta, rounded toward zero.
    pub fn num_seconds(&self) -> (r: i64)
        ensures
            r == delta_num_seconds(*self),
            0 <= self.secs && 0 <= self.nanos < 1_000_000_000 ==> r == self.secs,
    {
        if self.secs < 0 && self.nanos > 0 {
            self.secs + 1
        } else {
            self.secs
        }
    }
}

/// The current time: `chrono::Utc::now()`, read back as `timestamp()` and
/// `timestamp_subsec_nanos()`.
///
/// The value depends on the clock, so only what holds of every outcome is
/// stated: `Utc::now` builds its value from the time since the Unix epoch (it
/// panics on a clock set before 1970), so the seconds are not negative and the
/// nanoseconds are below one second.
#[verifier::external_body]
pub(crate) fn utc_now() -> (r: UtcInstant)
    ensures
        r.secs >= 0,
        r.nanos < 1_000_000_000,
{
    let now = chrono::Utc::now();
    UtcInstant { secs: now.timestamp(), nanos: now.timestamp_subsec_nanos() }
}

/// The Unix timestamp of `DateTime::from_timestamp(now_secs, now_nanos)` moved
/// forward by `TimeDelta::new(delta_secs, delta_nanos)` with
/// `checked_add_signed`, or `None` when chrono refuses one of these steps.
pub uninterp spec fn chrono_timestamp_after(now_secs: i64, now_nanos: u32, delta_secs: i64, delta_nanos: i32) -> Option<i64>;

/// The timestamp of `now` moved forward by `delta`: the seconds add up, and a
/// carry of one second comes from the nanoseconds.
pub open spec fn timestamp_sum(now: UtcInstant, delta: Delta) -> int {
    now.secs + delta.secs + if now.nanos + delta.nanos >= 1_000_000_000 { 1int } else { 0int }
}

/// The Unix timestamp of the first second chrono's `DateTime<Utc>` holds
/// (`DateTime::<Utc>::MIN_UTC`: January 1 of the year -262143).
pub open spec fn min_utc_timestamp() -> int {
    -8_334_601_228_800
}

/// The Unix timestamp of the last second chrono's `DateTime<Utc>` holds
/// (`DateTime::<Utc>::MAX_UTC`: 23:59:59 on December 31 of the year 262142).
pub open spec fn max_utc_timestamp() -> int {
    8_210_266_876_799
}

/// chrono's `DateTime<Utc> + TimeDelta`, read back as a Unix timestamp.
///
/// The result is named `chrono_timestamp_after`. When chrono succeeds, the
/// timestamp is the sum of the seconds with the carry from the nanoseconds, and
/// lies in the range of `DateTime<Utc>`. For a start in that range and a delta
/// that is not negative, chrono succeeds whenever the sum is still in range:
/// `from_timestamp` accepts the start, `TimeDelta::new` accepts the delta (it is
/// shorter than the whole range), and `checked_add_signed` only refuses a date
/// past `NaiveDate::MAX`. Where chrono refuses for negative deltas is not stated.
#[verifier::external_body]
pub(crate) fn timestamp_after(now: UtcInstant, delta: Delta) -> (r: Option<i64>)
    requires
        now.nanos < 1_000_000_000,
        0 <= delta.nanos < 1_000_000_000,
    ensures
        r == chrono_timestamp_after(now.secs, now.nanos, delta.secs, delta.nanos),
        r matches Some(t) ==> {
            &&& t == timestamp_sum(now, delta)
            &&& min_utc_timestamp() <= t <= max_utc_timestamp()
        },
        min_utc_timestamp() <= now.secs && 0 <= delta.secs
            && timestamp_sum(now, delta) <= max_utc_timestamp() ==> r is Some,
{
    let start = chrono::DateTime::from_timestamp(now.secs, now.nanos)?;
    let step = chrono::TimeDelta::new(delta.secs, delta.nanos as u32)?;
    match start.checked_add_signed(step) {
        Some(end) => Some(end.timestamp()),
        None => None,
    }
}

/// The whole seconds of a delta are its length rounded toward zero: for a delta
/// with its nanoseconds in `0..1_000_000_000`, whose length in nanoseconds is
/// `secs * 10^9 + nanos`, `delta_num_seconds` is the whole number of seconds
/// between zero and that length that is closest to it. In particular a delta
/// that is not negative has exactly its seconds.
pub proof fn lemma_num_seconds_rounds_toward_zero(d: Delta)
    requires
        0 <= d.nanos < 1_000_000_000,
    ensures
        ({
            let total = d.secs * 1_000_000_000 + d.nanos;
            let n = delta_num_seconds(d);
            &&& total >= 0 ==> n * 1_000_000_000 <= total < (n + 1) * 1_000_000_000
            &&& total < 0 ==> (n - 1) * 1_000_000_000 < total <= n * 1_000_000_000
        }),
        d.secs >= 0 ==> delta_num_seconds(d) == d.secs,
{
}

/// The timestamp at the end of a delta is the start's seconds plus the delta's
/// seconds, plus one exactly when the nanoseconds add up to a whole second.
pub proof fn lemma_timestamp_sum_adds_seconds(now: UtcInstant, delta: Delta)
    requires
        now.nanos < 1_000_000_000,
        0 <= delta.nanos < 1_000_000_000,
    ensures
        now.secs + delta.secs <= timestamp_sum(now, delta) <= now.secs + delta.secs + 1,
        now.nanos + delta.nanos < 1_000_000_000 ==> timestamp_sum(now, delta) == now.secs + delta.secs,
        now.nanos + delta.nanos >= 1_000_000_000 ==> timestamp_sum(now, delta) == now.secs + delta.secs + 1,
{
}

/// A token lifetime becomes a chrono delta of the same length exactly when it
/// is no longer than `i64::MAX` milliseconds: a lifetime with fewer whole
/// seconds than that limit keeps its seconds and nanoseconds, and one with more
/// is refused.
pub proof fn lemma_lifetimes_keep_their_length(span: TimeSpan)
    requires
        span.wf(),
    ensures
        span.secs < max_delta_secs() ==> delta_from_span(span) == Some(
            Delta { secs: span.secs as i64, nanos: span.nanos as i32 },
        ),
        span.secs > max_delta_secs() ==> delta_from_span(span) is None,
        delta_from_span(span) matches Some(d) ==> d.secs == span.secs && d.nanos == span.nanos,
{
}

} // verus!
