use vstd::prelude::*;

verus! {

/// A point in time, in whole seconds since the Unix epoch (UTC).
#[derive(Clone, Copy, Debug, PartialEq, Eq, Hash)]
pub struct Timestamp {
    pub seconds: i64,
}

/// Seconds from `start` to `end`, or zero when `end` is not after `start`.
pub open spec fn elapsed_seconds(start: int, end: int) -> nat {
    if end >= start {
        (end - start) as nat
    } else {
        0
    }
}

impl Timestamp {
    pub fn from_seconds(seconds: i64) -> (r: Timestamp)
        ensures
            r.seconds == seconds,
    {
        Timestamp { seconds }
    }

    /// The current time of the host clock.
    pub fn now() -> Timestamp {
        local_now()
    }

    /// Seconds from `self` to `end`; a clock that went backwards gives zero.
    pub fn seconds_until(&self, end: Timestamp) -> (r: u64)
        ensures
            r as nat == elapsed_seconds(self.seconds as int, end.seconds as int),
    {
        if end.seconds >= self.seconds {
            (end.seconds as i128 - self.seconds as i128) as u64
        } else {
            0
        }
    }
}

/// Relies on chrono::Local::now, which reads the host clock, and on
/// DateTime::timestamp for its seconds since the epoch. Nothing is known of
/// the time it gives.
#[verifier::external_body]
fn local_now() -> Timestamp {
    Timestamp { seconds: chrono::Local::now().timestamp() }
}

} // verus!
