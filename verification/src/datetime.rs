//! Creation times of records, in milliseconds since the Unix epoch.

use vstd::prelude::*;

verus! {

/// A point in time with millisecond precision.
#[derive(Clone, Copy, Debug, PartialEq, Eq, Hash)]
pub struct DateTime {
    pub millis: i64,
}

/// `DateTime::now` of the bson crate, read back with `timestamp_millis`.
/// It reads the system clock, so nothing is said of the value.
#[verifier::external_body]
fn clock_millis() -> i64 {
    mongodb::bson::DateTime::now().timestamp_millis()
}

impl DateTime {
    pub fn from_millis(millis: i64) -> (t: DateTime)
        ensures
            t.millis == millis,
    {
        DateTime { millis }
    }

    pub fn timestamp_millis(&self) -> (millis: i64)
        ensures
            millis == self.millis,
    {
        self.millis
    }

    /// The current time. Callers that need a contract over the time take it
    /// as an argument.
    pub fn now() -> DateTime {
        DateTime { millis: clock_millis() }
    }
}

} // verus!
