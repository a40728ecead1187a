//! Points in time, in the range of a UTC date and time.

use vstd::prelude::*;

verus! {

/// The first millisecond since the Unix epoch that is a date.
pub const MIN_MILLIS: i64 = -8334601228800000;

/// The last millisecond since the Unix epoch that is a date.
pub const MAX_MILLIS: i64 = 8210266876799999;

/// Nanoseconds in a millisecond.
pub const NANOS_PER_MILLI: i128 = 1000000;

/// Nanoseconds in a second.
pub const NANOS_PER_SECOND: i128 = 1000000000;

/// Whether a number of nanoseconds since the Unix epoch is a date.
pub open spec fn is_time(nanos: int) -> bool {
    MIN_MILLIS * NANOS_PER_MILLI <= nanos < (MAX_MILLIS + 1) * NANOS_PER_MILLI
}

/// The nanoseconds since the Unix epoch of a second and a part of a second.
pub open spec fn nanos_of(parts: (i64, u32)) -> int {
    parts.0 * NANOS_PER_SECOND + parts.1
}

/// Calls `chrono::DateTime::<Utc>::from_timestamp_millis` and takes the result apart into
/// `timestamp` and `timestamp_subsec_nanos`. There is a result exactly for the milliseconds
/// from `MIN_MILLIS` to `MAX_MILLIS`, and it is that millisecond.
#[verifier::external_body]
fn date_of_millis(millis: i64) -> (parts: Option<(i64, u32)>)
    ensures
        parts is Some <==> MIN_MILLIS <= millis <= MAX_MILLIS,
        parts matches Some(p) ==> p.1 < NANOS_PER_SECOND && nanos_of(p) == millis
            * NANOS_PER_MILLI,
{
    chrono::DateTime::<chrono::Utc>::from_timestamp_millis(millis).map(
        |date| (date.timestamp(), date.timestamp_subsec_nanos()),
    )
}

/// Calls `chrono::Utc::now` and takes the result apart into `timestamp` and
/// `timestamp_subsec_nanos`. Whatever the clock says, it is a date.
#[verifier::external_body]
fn current_date() -> (parts: (i64, u32))
    ensures
        parts.1 < NANOS_PER_SECOND,
        is_time(nanos_of(parts)),
{
    let date = chrono::Utc::now();
    (date.timestamp(), date.timestamp_subsec_nanos())
}

/// A point in time.
#[derive(Clone, Copy)]
pub struct Timestamp {
    nanos: i128,
}

impl View for Timestamp {
    type V = int;

    closed spec fn view(&self) -> int {
        self.nanos as int
    }
}

impl Timestamp {
    #[verifier::type_invariant]
    spec fn in_range(self) -> bool {
        is_time(self.nanos as int)
    }

    /// A point in time by its nanoseconds since the Unix epoch, if that is a date.
    pub fn from_nanos(nanos: i128) -> (time: Option<Timestamp>)
        ensures
            time is Some <==> is_time(nanos as int),
            time matches Some(t) ==> t@ == nanos,
    {
        let low: i128 = MIN_MILLIS as i128 * NANOS_PER_MILLI;
        let high: i128 = (MAX_MILLIS as i128 + 1) * NANOS_PER_MILLI;
        if low <= nanos && nanos < high {
            Some(Timestamp { nanos })
        } else {
            None
        }
    }

    /// A point in time by its milliseconds since the Unix epoch, if that is a date.
    pub fn from_timestamp_millis(millis: i64) -> (time: Option<Timestamp>)
        ensures
            time is Some <==> MIN_MILLIS <= millis <= MAX_MILLIS,
            time matches Some(t) ==> t@ == millis * NANOS_PER_MILLI && is_time(t@),
    {
        match date_of_millis(millis) {
            Some(parts) => {
                let nanos: i128 = parts.0 as i128 * NANOS_PER_SECOND + parts.1 as i128;
                Some(Timestamp { nanos })
            },
            None => None,
        }
    }

    /// The current time.
    pub fn now() -> (time: Timestamp)
        ensures
            is_time(time@),
    {
        let parts = current_date();
        let nanos: i128 = parts.0 as i128 * NANOS_PER_SECOND + parts.1 as i128;
        Timestamp { nanos }
    }

    /// The nanoseconds since the Unix epoch.
    pub fn nanos(self) -> (nanos: i128)
        ensures
            nanos == self@,
            is_time(self@),
    {
        proof {
            use_type_invariant(&self);
        }
        self.nanos
    }

    /// The milliseconds since the Unix epoch, rounded down.
    pub fn timestamp_millis(self) -> (millis: i64)
        ensures
            millis == self@ / NANOS_PER_MILLI as int,
            MIN_MILLIS <= millis <= MAX_MILLIS,
    {
        proof {
            use_type_invariant(&self);
        }
        // Counted from the first date, so that the division is of natural numbers.
        let base: i128 = MIN_MILLIS as i128 * NANOS_PER_MILLI;
        let since: u128 = (self.nanos - base) as u128;
        let millis: u128 = since / 1000000;
        (millis as i128 + MIN_MILLIS as i128) as i64
    }
}

/// Whether a time stays a date when some milliseconds are added to it.
pub open spec fn can_expire(time: int, timeout: u32) -> bool {
    is_time(time + timeout * NANOS_PER_MILLI)
}

/// The nanoseconds since the Unix epoch at which a timeout that began at `time` ends.
pub open spec fn expiry_of(time: int, timeout: u32) -> int {
    time + timeout * NANOS_PER_MILLI
}

/// The end of a timeout that began at `time`, in nanoseconds since the Unix epoch.
pub(crate) fn expiry_nanos(time: Timestamp, timeout: u32) -> (end: i128)
    ensures
        end == expiry_of(time@, timeout),
        is_time(time@),
{
    time.nanos() + timeout as i128 * NANOS_PER_MILLI
}

/// Whether a time stays a date when some milliseconds are added to it.
pub fn stays_in_range(time: Timestamp, timeout: u32) -> (stays: bool)
    ensures
        stays == can_expire(time@, timeout),
{
    Timestamp::from_nanos(expiry_nanos(time, timeout)).is_some()
}

/// A time of whole milliseconds keeps its milliseconds: reading a stored time back gives
/// the time that was stored.
pub proof fn law_millis_survive(millis: i64)
    ensures
        (millis * NANOS_PER_MILLI) / NANOS_PER_MILLI as int == millis,
{
}

/// A timeout ends as many milliseconds after its beginning as it has, at a million
/// nanoseconds each; it can be judged exactly if that end is a date.
pub proof fn law_timeouts_are_in_milliseconds(time: int, timeout: u32)
    ensures
        expiry_of(time, timeout) == time + timeout * 1_000_000,
        can_expire(time, timeout) == is_time(expiry_of(time, timeout)),
        expiry_of(time, 0) == time,
        is_time(time) <==> -8334601228800000 * 1_000_000 <= time < 8210266876800000 * 1_000_000,
{
}

} // verus!
