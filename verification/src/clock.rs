//! Instants of time as the cache sees them.

use vstd::prelude::*;

verus! {

/// Nanoseconds in one second.
pub const NANOS_PER_SEC: i128 = 1_000_000_000;

/// A reading of the clock: whole seconds since the Unix epoch, and the
/// nanoseconds that have passed since that second began.
#[derive(Clone, Copy, Debug)]
pub struct Timestamp {
    pub secs: i64,
    pub nanos: u32,
}

impl Timestamp {
    /// The instant as one number: nanoseconds since the Unix epoch.
    pub open spec fn as_nanos(self) -> int {
        self.secs * NANOS_PER_SEC + self.nanos
    }

    /// The instant as one number, in executable code.
    pub fn total_nanos(self) -> (n: i128)
        ensures
            n == self.as_nanos(),
    {
        self.secs as i128 * NANOS_PER_SEC + self.nanos as i128
    }

    /// The instant that lies `ttl_secs` seconds after this one, in nanoseconds
    /// since the Unix epoch. The sum always fits.
    pub fn deadline(self, ttl_secs: u64) -> (d: i128)
        ensures
            d == self.as_nanos() + ttl_secs * NANOS_PER_SEC,
    {
        self.total_nanos() + ttl_secs as i128 * NANOS_PER_SEC
    }
}

/// Reads the system clock through `chrono::Utc::now`, and takes the reading
/// apart with `DateTime::timestamp` and `DateTime::timestamp_subsec_nanos`.
/// Nothing is claimed of the reading: two calls may even go backwards.
/// `Utc::now` panics where the system clock stands before the Unix epoch.
#[verifier::external_body]
pub(crate) fn now() -> Timestamp {
    let t = chrono::Utc::now();
    Timestamp { secs: t.timestamp(), nanos: t.timestamp_subsec_nanos() }
}

} // verus!
