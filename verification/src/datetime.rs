//! A datetime field based on the system clock.

use vstd::prelude::*;

verus! {

#[verifier::external_type_specification]
#[verifier::external_body]
pub struct ExSystemTime(std::time::SystemTime);

/// Relies on std::time::SystemTime::now for the current time; nothing is
/// assumed of the returned value.
#[verifier::external_body]
fn system_time_now() -> std::time::SystemTime {
    std::time::SystemTime::now()
}

/// A datetime field based on SystemTime. The wrapped value is opaque: the
/// library only stores and compares it.
#[derive(Clone, Copy, Debug, Eq, PartialEq)]
pub struct DateTime {
    time: std::time::SystemTime,
}

impl DateTime {
    pub closed spec fn spec_time(self) -> std::time::SystemTime {
        self.time
    }

    /// The current system time.
    pub fn now() -> Self {
        DateTime { time: system_time_now() }
    }

    /// The wrapped SystemTime, for collaborators that persist timestamps.
    pub fn as_system_time(&self) -> (r: std::time::SystemTime)
        ensures
            r == self.spec_time(),
    {
        self.time
    }
}

} // verus!
