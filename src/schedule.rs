//! Decisions of the periodic runs: the count of consecutive failed checks,
//! kept by whoever runs the checks, and when a kept file has expired.
use crate::timestamp::{earlier, Timestamp};
use vstd::prelude::*;

verus! {

/// From this many consecutive failures on, a failure is worth a warning.
pub const FAILURE_WARNING_THRESHOLD: u32 = 3;

/// Consecutive failed checks.
#[derive(Clone, Copy, Debug, PartialEq, Eq, Structural)]
pub struct FailureCounter {
    pub consecutive: u32,
}

impl FailureCounter {
    pub fn new() -> (r: FailureCounter)
        ensures
            r.consecutive == 0,
    {
        FailureCounter { consecutive: 0 }
    }

    /// Counts a failed check, saturating at the largest count. The result
    /// says whether the failures have reached the warning threshold.
    pub fn record_failure(&mut self) -> (warn: bool)
        ensures
            final(self).consecutive == if old(self).consecutive == u32::MAX {
                u32::MAX as int
            } else {
                old(self).consecutive + 1
            },
            warn == (final(self).consecutive >= FAILURE_WARNING_THRESHOLD),
    {
        if self.consecutive < u32::MAX {
            self.consecutive = self.consecutive + 1;
        }
        self.consecutive >= FAILURE_WARNING_THRESHOLD
    }

    /// Counts a successful check. The result is the number of failures it
    /// ends when they had reached the warning threshold.
    pub fn record_success(&mut self) -> (recovered_after: Option<u32>)
        ensures
            final(self).consecutive == 0,
            recovered_after == if old(self).consecutive >= FAILURE_WARNING_THRESHOLD {
                Some(old(self).consecutive)
            } else {
                None
            },
    {
        let previous = self.consecutive;
        self.consecutive = 0;
        if previous >= FAILURE_WARNING_THRESHOLD {
            Some(previous)
        } else {
            None
        }
    }
}

/// How long a deleted document is kept, in days.
pub const RETENTION_DAYS: i64 = 30;

/// The instant `days` whole days before `now`, if it can be written.
pub open spec fn days_before(now: Timestamp, days: int) -> Timestamp {
    Timestamp { secs: (now.secs - days * 86400) as i64, nanos: now.nanos }
}

/// Whether a file last modified at `modified` is older than `days` days at
/// `now`: it was modified strictly before the instant `days` days earlier.
/// The span in seconds must fit an `i64`.
pub fn is_expired(modified: Timestamp, now: Timestamp, days: i64) -> (r: bool)
    requires
        0 <= days <= i64::MAX / 86400,
    ensures
        now.secs - days * 86400 >= i64::MIN ==> r == earlier(modified, days_before(now, days as int)),
        now.secs - days * 86400 < i64::MIN ==> !r,
{
    let span = days * 86400;
    if now.secs < i64::MIN + span {
        return false;
    }
    let cutoff = Timestamp { secs: now.secs - span, nanos: now.nanos };
    modified.is_before(&cutoff)
}

} // verus!
