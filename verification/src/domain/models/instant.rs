//! Points on the UTC time line, as the records carry them.

use vstd::prelude::*;

verus! {

/// Seconds that Japan Standard Time is ahead of UTC.
pub const JST_OFFSET_SECONDS: i32 = 32_400;

/// An instant: whole seconds since 1970-01-01T00:00:00Z and the nanoseconds
/// into that second.
#[derive(Clone, Copy, PartialEq, Eq, Structural, Debug)]
pub struct Timestamp {
    pub secs: i64,
    pub nanos: u32,
}

impl Timestamp {
    /// `self` is not earlier than `other`: seconds decide, nanoseconds break
    /// the tie.
    pub open spec fn at_or_after(self, other: Timestamp) -> bool {
        self.secs > other.secs || (self.secs == other.secs && self.nanos >= other.nanos)
    }

    pub fn new(secs: i64, nanos: u32) -> (t: Timestamp)
        ensures
            t == (Timestamp { secs, nanos }),
    {
        Timestamp { secs, nanos }
    }

    /// Decides [`Timestamp::at_or_after`].
    pub fn is_at_or_after(&self, other: &Timestamp) -> (b: bool)
        ensures
            b == self.at_or_after(*other),
    {
        self.secs > other.secs || (self.secs == other.secs && self.nanos >= other.nanos)
    }
}

/// Instants are totally ordered: any two compare, an instant compares with
/// itself, two that compare both ways are equal, and the order carries over
/// a middle instant.
pub proof fn lemma_instants_are_totally_ordered(a: Timestamp, b: Timestamp, c: Timestamp)
    ensures
        a.at_or_after(a),
        a.at_or_after(b) || b.at_or_after(a),
        a.at_or_after(b) && b.at_or_after(a) ==> a == b,
        a.at_or_after(b) && b.at_or_after(c) ==> a.at_or_after(c),
{
}

/// Reads the system clock with `chrono::Utc::now`, views that instant in the
/// zone `east_seconds` east of Greenwich (`chrono::FixedOffset::east_opt`,
/// `chrono::TimeZone::from_utc_datetime`) and converts it back to UTC
/// (`chrono::DateTime::with_timezone`).
///
/// Nothing is claimed of the instant that comes back: it is whatever the
/// clock of the machine says. `east_opt` gives no zone for an offset of a day
/// or more, so such an offset is not accepted. `Utc::now` panics on a
/// machine whose clock is set before 1970.
#[verifier::external_body]
pub(crate) fn now_through_zone(east_seconds: i32) -> (now: Timestamp)
    requires
        -86_400 < east_seconds < 86_400,
{
    let zone = chrono::FixedOffset::east_opt(east_seconds).unwrap();
    let local = chrono::TimeZone::from_utc_datetime(&zone, &chrono::Utc::now().naive_utc());
    let utc = local.with_timezone(&chrono::Utc);
    Timestamp { secs: utc.timestamp(), nanos: utc.timestamp_subsec_nanos() }
}

/// The present instant in UTC, taken by way of Japan Standard Time.
pub(crate) fn now_jst_as_utc() -> (now: Timestamp) {
    now_through_zone(JST_OFFSET_SECONDS)
}

} // verus!
