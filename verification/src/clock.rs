//! Sources of the current time.

use vstd::prelude::*;

verus! {

/// `std::time::SystemTime`, declared so that times can be held and handed
/// on; nothing inside a value of it is visible to the proofs.
#[verifier::external_type_specification]
#[verifier::external_body]
pub struct ExSystemTime(std::time::SystemTime);

/// A source of the current time.
pub trait Clock: Send + Sync {
    fn now(&self) -> std::time::SystemTime;
}

/// The clock of the machine.
pub struct SystemClock {}

/// `std::time::SystemTime::now`; nothing is promised of the time it reads.
#[verifier::external_body]
fn system_time_now() -> std::time::SystemTime {
    std::time::SystemTime::now()
}

impl Clock for SystemClock {
    fn now(&self) -> std::time::SystemTime {
        system_time_now()
    }
}

impl SystemClock {
    pub fn new() -> Self {
        Self {}
    }
}

/// A clock that always reads the same time.
pub struct FixedClock {
    now: std::time::SystemTime,
}

impl FixedClock {
    /// The time that this clock reads.
    pub closed spec fn reading(&self) -> std::time::SystemTime {
        self.now
    }

    pub fn new(now: std::time::SystemTime) -> (clock: Self)
        ensures
            clock.reading() == now,
    {
        Self { now }
    }
}

impl Clock for FixedClock {
    fn now(&self) -> (now: std::time::SystemTime)
        ensures
            now == self.reading(),
    {
        self.now
    }
}

} // verus!
