//! Readings of the wall clock, as offsets from the Unix epoch.

use std::time::{Duration, SystemTime, SystemTimeError, UNIX_EPOCH};
use vstd::prelude::*;

verus! {

/// Nanoseconds in one second.
pub const NANOS_PER_SEC: u64 = 1_000_000_000;

/// The farthest from the epoch that a [`Timestamp`] can lie, in nanoseconds: the largest count
/// of seconds and the largest count of nanoseconds beyond them that its fields can carry.
pub const FARTHEST_NANOS: i128 = 18_446_744_073_709_551_619_294_967_295;

/// A reading of the wall clock: how far it stood from the Unix epoch, and on which side.
///
/// Every combination of the fields is a reading. `subsec_nanos` may exceed a second, and then
/// counts as that much time; the readings that [`Timestamp::now`] takes never hold such.
#[derive(Clone, Copy, Debug)]
pub struct Timestamp {
    /// Whether the reading lies before the epoch.
    pub before_epoch: bool,
    /// Whole seconds between the reading and the epoch.
    pub secs: u64,
    /// Nanoseconds beyond the whole seconds.
    pub subsec_nanos: u32,
}

impl Timestamp {
    /// Nanoseconds from the epoch to this reading, negative before the epoch.
    pub open spec fn nanos(self) -> int {
        let distance = self.secs * NANOS_PER_SEC + self.subsec_nanos;
        if self.before_epoch {
            -distance
        } else {
            distance
        }
    }

    /// The reading as a signed count of nanoseconds, which always fits.
    pub fn as_nanos(&self) -> (n: i128)
        ensures
            n == self.nanos(),
            -FARTHEST_NANOS <= n <= FARTHEST_NANOS,
    {
        assert(self.secs * NANOS_PER_SEC <= u64::MAX * NANOS_PER_SEC) by (nonlinear_arith);
        let whole: i128 = (self.secs as i128) * (NANOS_PER_SEC as i128);
        let distance: i128 = whole + (self.subsec_nanos as i128);
        if self.before_epoch {
            -distance
        } else {
            distance
        }
    }
}

/// [`SystemTime`], a point on the system's wall clock. Nothing is known of what one holds.
#[verifier::external_type_specification]
#[verifier::external_body]
pub struct ExSystemTime(SystemTime);

/// [`SystemTimeError`], which tells how far the second of two points on the clock lay after
/// the first. Nothing is known of what one holds.
#[verifier::external_type_specification]
#[verifier::external_body]
pub struct ExSystemTimeError(SystemTimeError);

/// [`SystemTime::now`] reads the clock. Nothing is claimed of the reading: two calls may
/// differ in any way.
pub assume_specification[ SystemTime::now ]() -> (now: SystemTime);

/// [`SystemTimeError::duration`] hands out the distance that the error carries. Nothing is
/// claimed of it.
pub assume_specification[ SystemTimeError::duration ](error: &SystemTimeError) -> (distance:
    Duration);

/// [`Duration::as_secs`] hands out the whole seconds of a duration. Nothing is claimed of them.
pub assume_specification[ Duration::as_secs ](duration: &Duration) -> (secs: u64);

/// [`Duration::subsec_nanos`] hands out what a duration holds beyond its whole seconds, in
/// nanoseconds: always less than a second.
pub assume_specification[ Duration::subsec_nanos ](duration: &Duration) -> (nanos: u32)
    ensures
        nanos < NANOS_PER_SEC,
;

/// How far `time` lies from the Unix epoch: `Ok` with the distance where it lies at or after
/// the epoch, `Err` with the distance inside where it lies before.
///
/// Not proved: the body is [`SystemTime::duration_since`] with [`UNIX_EPOCH`] as the earlier
/// point. Nothing is claimed of the result.
#[verifier::external_body]
fn since_epoch(time: &SystemTime) -> (elapsed: Result<Duration, SystemTimeError>) {
    time.duration_since(UNIX_EPOCH)
}

impl Timestamp {
    /// Reads the system's wall clock. Whatever the clock says is a reading; all that is known
    /// of one is that its nanoseconds stay below a second.
    pub fn now() -> (now: Timestamp)
        ensures
            now.subsec_nanos < NANOS_PER_SEC,
    {
        match since_epoch(&SystemTime::now()) {
            Ok(ahead) => Timestamp {
                before_epoch: false,
                secs: ahead.as_secs(),
                subsec_nanos: ahead.subsec_nanos(),
            },
            Err(behind) => {
                let distance = behind.duration();
                Timestamp {
                    before_epoch: true,
                    secs: distance.as_secs(),
                    subsec_nanos: distance.subsec_nanos(),
                }
            },
        }
    }
}

} // verus!
