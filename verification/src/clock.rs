//! The system clock, whose readings the library only carries and stamps.

use vstd::prelude::*;
use std::time::{Duration, SystemTime, UNIX_EPOCH};

verus! {

/// The clock type of the standard library, carried as an opaque value.
#[verifier::external_type_specification]
#[verifier::external_body]
pub struct ExSystemTime(SystemTime);

/// Reads the system clock (`std::time::SystemTime::now`); no value is promised.
#[verifier::external_body]
pub(crate) fn system_now() -> (t: SystemTime) {
    SystemTime::now()
}

/// How long after the Unix epoch an instant is (`SystemTime::duration_since(UNIX_EPOCH)`);
/// none for an instant before it. What the duration is depends on the instant, which is
/// opaque here, so it is not stated.
#[verifier::external_body]
pub(crate) fn since_epoch(t: &SystemTime) -> (r: Option<Duration>) {
    t.duration_since(UNIX_EPOCH).ok()
}

/// The whole seconds of a duration (`Duration::as_secs`); the duration is opaque here, so
/// the value is not stated.
#[verifier::external_body]
pub(crate) fn duration_secs(d: &Duration) -> (r: u64) {
    d.as_secs()
}

/// The nanoseconds of a duration beyond its whole seconds (`Duration::subsec_nanos`), which
/// the standard library documents as less than one billion.
#[verifier::external_body]
pub(crate) fn duration_subsec_nanos(d: &Duration) -> (r: u32)
    ensures
        r < 1_000_000_000,
{
    d.subsec_nanos()
}

/// What `chrono::DateTime::<Utc>::from_timestamp(secs, nanos)` followed by `to_rfc3339`
/// gives: the instant as RFC 3339 text, or nothing when the seconds or nanoseconds are out of
/// chrono's range.
pub uninterp spec fn utc_timestamp_rfc3339(secs: i64, nanos: u32) -> Option<Seq<char>>;

/// The instant `secs` seconds and `nanos` nanoseconds after the Unix epoch as RFC 3339 text in
/// UTC, where chrono can represent it.
#[verifier::external_body]
pub(crate) fn timestamp_rfc3339(secs: i64, nanos: u32) -> (r: Option<String>)
    ensures
        match r {
            Some(t) => utc_timestamp_rfc3339(secs, nanos) == Some(t@),
            None => utc_timestamp_rfc3339(secs, nanos) is None,
        },
{
    chrono::DateTime::<chrono::Utc>::from_timestamp(secs, nanos).map(|dt| dt.to_rfc3339())
}

/// The message when the system clock reads before the Unix epoch.
pub open spec fn before_epoch_message() -> Seq<char> {
    "System time before Unix epoch"@
}

/// The message when the system clock reads an instant that has no date.
pub open spec fn out_of_range_message() -> Seq<char> {
    "System time out of range"@
}

/// The message is one of those given when the clock cannot be read as a date.
pub open spec fn is_clock_error(m: Seq<char>) -> bool {
    m == before_epoch_message() || m == out_of_range_message()
}

/// The text is an instant as RFC 3339 text in UTC.
pub open spec fn is_instant_text(t: Seq<char>) -> bool {
    exists|secs: i64, nanos: u32| nanos < 1_000_000_000 && utc_timestamp_rfc3339(secs, nanos) == Some(t)
}

/// The instant `secs` seconds and `nanos` nanoseconds after the Unix epoch as RFC 3339 text in
/// UTC, as `chrono::Utc::now().to_rfc3339()` writes it, or the error for an instant that has
/// no date.
pub fn instant_rfc3339(secs: u64, nanos: u32) -> (r: Result<String, String>)
    requires
        nanos < 1_000_000_000,
    ensures
        match r {
            Ok(t) => secs <= i64::MAX && utc_timestamp_rfc3339(secs as i64, nanos) == Some(t@),
            Err(m) => m@ == out_of_range_message()
                && (secs > i64::MAX || utc_timestamp_rfc3339(secs as i64, nanos) is None),
        },
{
    if secs > 9223372036854775807u64 {
        return Err(crate::text::owned("System time out of range"));
    }
    match timestamp_rfc3339(secs as i64, nanos) {
        Some(t) => Ok(t),
        None => Err(crate::text::owned("System time out of range")),
    }
}

/// The current time in UTC as RFC 3339 text, read from the system clock as
/// `chrono::Utc::now().to_rfc3339()` reads it; an error where the clock reads before the Unix
/// epoch or an instant that has no date. Which instant the clock reads is not stated.
pub fn now_rfc3339() -> (r: Result<String, String>)
    ensures
        match r {
            Ok(t) => is_instant_text(t@),
            Err(m) => is_clock_error(m@),
        },
{
    let now = system_now();
    match since_epoch(&now) {
        None => Err(crate::text::owned("System time before Unix epoch")),
        Some(d) => {
            let secs = duration_secs(&d);
            let nanos = duration_subsec_nanos(&d);
            let r = instant_rfc3339(secs, nanos);
            assert(r matches Ok(t) ==> nanos < 1_000_000_000 && utc_timestamp_rfc3339(secs as i64, nanos) == Some(t@));
            r
        },
    }
}

/// An instant as the library reads it: the whole seconds and the nanoseconds beyond them after
/// the Unix epoch, or none for an instant before the epoch.
#[derive(Debug, Clone, Copy)]
pub struct Timestamp {
    /// Seconds and nanoseconds (below one billion) after the Unix epoch.
    pub since_epoch: Option<(u64, u32)>,
}

impl Timestamp {
    /// The nanoseconds stay below one second.
    pub open spec fn valid(self) -> bool {
        self.since_epoch matches Some(d) ==> d.1 < 1_000_000_000
    }
}

/// Reads the system clock as a timestamp. Which instant it reads is not stated.
pub fn timestamp_now() -> (r: Timestamp)
    ensures
        r.valid(),
{
    let now = system_now();
    match since_epoch(&now) {
        Some(d) => Timestamp { since_epoch: Some((duration_secs(&d), duration_subsec_nanos(&d))) },
        None => Timestamp { since_epoch: None },
    }
}

/// `SystemTime` is `Copy`, so its `clone` gives the same instant back.
pub assume_specification[ <SystemTime as Clone>::clone ](t: &SystemTime) -> (r: SystemTime)
    ensures
        r == *t,
;

} // verus!
