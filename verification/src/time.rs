use vstd::prelude::*;

verus! {

/// Seconds of the earliest instant that chrono can represent in UTC.
pub const EARLIEST_SECS: i64 = -8334601315200;

/// Seconds of the latest whole second that chrono can represent in UTC.
pub const LATEST_SECS: i64 = 8210266876799;

/// An instant in UTC: whole seconds since the Unix epoch and the
/// nanoseconds into that second.
#[derive(Clone, Copy, Debug, PartialEq, Eq, Structural)]
pub struct Timestamp {
    pub secs: i64,
    pub nanos: u32,
}

/// `a` lies strictly before `b`.
pub open spec fn earlier(a: Timestamp, b: Timestamp) -> bool {
    a.secs < b.secs || (a.secs == b.secs && a.nanos < b.nanos)
}

impl Timestamp {
    /// Whether this instant lies strictly before `other`.
    pub fn is_before(&self, other: &Timestamp) -> (r: bool)
        ensures
            r == earlier(*self, *other),
    {
        self.secs < other.secs || (self.secs == other.secs && self.nanos < other.nanos)
    }
}

/// Reads the clock through `chrono::Utc::now`. What comes back depends on
/// the clock; the contract states only that every `DateTime<Utc>` lies in
/// chrono's representable range and that its sub-second part is below two
/// seconds (chrono keeps a leap second in the nanoseconds).
#[verifier::external_body]
pub fn utc_now() -> (t: Timestamp)
    ensures
        EARLIEST_SECS <= t.secs <= LATEST_SECS,
        t.nanos < 2_000_000_000,
{
    let now = chrono::Utc::now();
    Timestamp { secs: now.timestamp(), nanos: now.timestamp_subsec_nanos() }
}

/// Reads the clock through `jsonwebtoken::get_current_timestamp`: whole
/// seconds since the Unix epoch. The value depends on the clock, so nothing
/// is stated of it.
#[verifier::external_body]
pub fn unix_seconds_now() -> (t: u64) {
    jsonwebtoken::get_current_timestamp()
}

} // verus!
