use vstd::prelude::*;

verus! {

/// A point in time, as microseconds since 1970-01-01T00:00:00 UTC.
#[derive(Clone, Copy, Debug, PartialEq, Eq, Structural)]
pub struct Timestamp {
    pub micros: i64,
}

/// Relies on `chrono::Local::now` and `DateTime::timestamp_micros`: the current
/// wall-clock time as microseconds since the Unix epoch. `Utc::now`, which
/// `Local::now` goes through, panics rather than return a time before the epoch,
/// so the result is never negative. Nothing is promised about how two readings
/// relate: the wall clock may be set back.
#[verifier::external_body]
pub(crate) fn now_micros() -> (r: i64)
    ensures
        r >= 0,
{
    chrono::Local::now().timestamp_micros()
}

impl Timestamp {
    /// The current time, read from the local wall clock.
    pub fn now() -> (r: Timestamp)
        ensures
            r.micros >= 0,
    {
        Timestamp { micros: now_micros() }
    }
}

} // verus!
