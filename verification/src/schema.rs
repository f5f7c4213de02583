//! The records that the daemon stores: monitoring sessions, and the
//! timestamps that they and the samples carry.
use vstd::prelude::*;

verus! {

/// A point in time that chrono can write as a date-time: whole seconds since
/// the Unix epoch (UTC) and the nanoseconds past that second (from one
/// billion on, within a leap second).
#[derive(Clone, Copy, Debug, PartialEq, Eq, Structural)]
pub struct Timestamp {
    secs: i64,
    nanos: u32,
}

/// The instant that chrono reads from an RFC 3339 date-time, as whole seconds
/// since the Unix epoch and nanoseconds past that second; none where chrono
/// rejects the text.
pub uninterp spec fn rfc3339_instant(text: Seq<char>) -> Option<(i64, u32)>;

/// The RFC 3339 text that chrono writes for the UTC instant `secs` seconds
/// and `nanos` nanoseconds after the Unix epoch; none where chrono has no
/// date-time for that instant.
pub uninterp spec fn rfc3339_text(secs: i64, nanos: u32) -> Option<Seq<char>>;

/// Calls `chrono::DateTime::parse_from_rfc3339` and reads the seconds and
/// sub-second nanoseconds of the result in UTC. Claimed: the result is a
/// function of the text, named [`rfc3339_instant`]; and, as chrono documents
/// that `DateTime::from_timestamp` takes back what `timestamp` and
/// `timestamp_subsec_nanos` give, chrono can write a date-time for every
/// instant that it reads.
#[verifier::external_body]
fn parse_rfc3339(text: &str) -> (r: Option<(i64, u32)>)
    ensures
        r == rfc3339_instant(text@),
        r matches Some((secs, nanos)) ==> rfc3339_text(secs, nanos) is Some,
{
    match chrono::DateTime::parse_from_rfc3339(text) {
        Ok(t) => {
            let utc = t.with_timezone(&chrono::Utc);
            Some((utc.timestamp(), utc.timestamp_subsec_nanos()))
        },
        Err(_) => None,
    }
}

/// Calls `chrono::DateTime::<Utc>::from_timestamp` and then `to_rfc3339` on
/// the date-time that it gives. Claimed: the result is a function of the
/// two numbers, named [`rfc3339_text`].
#[verifier::external_body]
fn format_rfc3339(secs: i64, nanos: u32) -> (r: Option<String>)
    ensures
        r.deep_view() == rfc3339_text(secs, nanos),
{
    match chrono::DateTime::<chrono::Utc>::from_timestamp(secs, nanos) {
        Some(t) => Some(t.to_rfc3339()),
        None => None,
    }
}

/// The system clock's time (`std::time::SystemTime`), carried through
/// unread.
#[verifier::external_type_specification]
#[verifier::external_body]
pub struct ExSystemTime(std::time::SystemTime);

/// Calls `std::time::SystemTime::now()`. Claimed: nothing, the value is the
/// clock's.
#[verifier::external_body]
fn system_time_now() -> (r: std::time::SystemTime) {
    std::time::SystemTime::now()
}

/// Calls `SystemTime::duration_since(UNIX_EPOCH)` on `t`; none where `t`
/// lies before the epoch, as std documents the error. Claimed: nothing of
/// the duration, which Verus cannot see into.
#[verifier::external_body]
fn since_unix_epoch(t: &std::time::SystemTime) -> (r: Option<std::time::Duration>) {
    match t.duration_since(std::time::UNIX_EPOCH) {
        Ok(d) => Some(d),
        Err(_) => None,
    }
}

/// Calls `Duration::as_secs`. Claimed: nothing, the duration is opaque.
#[verifier::external_body]
fn duration_whole_secs(d: &std::time::Duration) -> (r: u64) {
    d.as_secs()
}

/// Calls `Duration::subsec_nanos`. Claimed: the result is below one
/// billion, as std documents.
#[verifier::external_body]
fn duration_subsec_nanos(d: &std::time::Duration) -> (r: u32)
    ensures
        r < 1_000_000_000,
{
    d.subsec_nanos()
}

/// Reads the system clock as whole seconds and nanoseconds since the Unix
/// epoch; none where it reads a time before the epoch.
pub fn system_clock() -> (r: Option<(u64, u32)>)
    ensures
        r matches Some((_secs, nanos)) ==> nanos < 1_000_000_000,
{
    let now = system_time_now();
    match since_unix_epoch(&now) {
        Some(d) => Some((duration_whole_secs(&d), duration_subsec_nanos(&d))),
        None => None,
    }
}

/// The instant of a clock reading of whole seconds and nanoseconds since the
/// epoch; none where there is no reading or the seconds do not fit in `i64`.
pub open spec fn clock_instant(reading: Option<(u64, u32)>) -> Option<(i64, u32)> {
    match reading {
        Some((secs, nanos)) => if secs <= i64::MAX {
            Some((secs as i64, nanos))
        } else {
            None
        },
        None => None,
    }
}

/// `instant` where chrono can write it as a date-time; none otherwise.
pub open spec fn representable_instant(instant: Option<(i64, u32)>) -> Option<(i64, u32)> {
    match instant {
        Some((secs, nanos)) => if rfc3339_text(secs, nanos) is Some {
            instant
        } else {
            None
        },
        None => None,
    }
}

/// `r` is the timestamp of `instant`: both none, or the same seconds and
/// nanoseconds.
pub open spec fn timestamp_matches(r: Option<Timestamp>, instant: Option<(i64, u32)>) -> bool {
    match (r, instant) {
        (Some(t), Some((secs, nanos))) => t.seconds() == secs && t.subsec_nanos() == nanos,
        (None, None) => true,
        _ => false,
    }
}

impl Timestamp {
    /// Whole seconds since the Unix epoch.
    pub closed spec fn seconds(self) -> i64 {
        self.secs
    }

    /// Nanoseconds past the second.
    pub closed spec fn subsec_nanos(self) -> u32 {
        self.nanos
    }

    /// Every timestamp can be written as a date-time.
    #[verifier::type_invariant]
    closed spec fn writable(self) -> bool {
        rfc3339_text(self.secs, self.nanos) is Some
    }

    /// Chrono can write this instant as a date-time (every timestamp meets
    /// this; see [`Timestamp::to_rfc3339`]).
    pub open spec fn representable(self) -> bool {
        rfc3339_text(self.seconds(), self.subsec_nanos()) is Some
    }

    /// The RFC 3339 text of this instant.
    pub open spec fn text(self) -> Seq<char> {
        rfc3339_text(self.seconds(), self.subsec_nanos()).unwrap()
    }

    /// Whole seconds since the Unix epoch.
    pub fn secs(&self) -> (r: i64)
        ensures
            r == self.seconds(),
    {
        self.secs
    }

    /// Nanoseconds past the second.
    pub fn nanos(&self) -> (r: u32)
        ensures
            r == self.subsec_nanos(),
    {
        self.nanos
    }

    /// The timestamp `secs` seconds and `nanos` nanoseconds after the Unix
    /// epoch; none where chrono cannot write that instant as a date-time.
    pub fn new(secs: i64, nanos: u32) -> (r: Option<Timestamp>)
        ensures
            timestamp_matches(r, representable_instant(Some((secs, nanos)))),
    {
        match format_rfc3339(secs, nanos) {
            Some(_) => Some(Timestamp { secs, nanos }),
            None => None,
        }
    }

    /// Turns the seconds and nanoseconds of an instant into a timestamp;
    /// none where there is no instant or chrono cannot write it.
    pub fn from_parts(instant: Option<(i64, u32)>) -> (r: Option<Timestamp>)
        ensures
            timestamp_matches(r, representable_instant(instant)),
    {
        match instant {
            Some((secs, nanos)) => Timestamp::new(secs, nanos),
            None => None,
        }
    }

    /// Reads an RFC 3339 date-time; none where the text is not one.
    pub fn from_rfc3339(text: &str) -> (r: Option<Timestamp>)
        ensures
            timestamp_matches(r, rfc3339_instant(text@)),
    {
        Timestamp::from_parts(parse_rfc3339(text))
    }

    /// The timestamp of a clock reading: none where there is no reading, its
    /// seconds do not fit in `i64`, or chrono cannot write the instant.
    pub fn from_clock(reading: Option<(u64, u32)>) -> (r: Option<Timestamp>)
        ensures
            timestamp_matches(r, representable_instant(clock_instant(reading))),
    {
        match reading {
            None => None,
            Some((secs, nanos)) => {
                if secs > i64::MAX as u64 {
                    return None;
                }
                Timestamp::new(secs as i64, nanos)
            },
        }
    }

    /// The current time: the timestamp of some reading of the system clock.
    pub fn now() -> (r: Option<Timestamp>)
        ensures
            exists|reading: Option<(u64, u32)>|
                timestamp_matches(r, representable_instant(clock_instant(reading))) && (
                reading matches Some((_secs, nanos)) ==> nanos < 1_000_000_000),
    {
        let reading = system_clock();
        let r = Timestamp::from_clock(reading);
        assert(timestamp_matches(r, representable_instant(clock_instant(reading))));
        r
    }

    /// This instant as RFC 3339 text in UTC.
    pub fn to_rfc3339(&self) -> (r: String)
        ensures
            r@ == self.text(),
            self.representable(),
    {
        proof {
            use_type_invariant(self);
        }
        match format_rfc3339(self.secs, self.nanos) {
            Some(text) => text,
            None => {
                assert(false);
                String::new()
            },
        }
    }
}

/// One run of the daemon, as the database records it.
pub struct MonitoringSession {
    pub id: Option<i64>,
    pub name: String,
    pub device_name: Option<String>,
    pub os_name: Option<String>,
    pub os_version: Option<String>,
    pub started_at: Timestamp,
    pub ended_at: Option<Timestamp>,
    pub created_at: Timestamp,
}

} // verus!
