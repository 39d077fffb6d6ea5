//! Decisions of the timed effect loop, over plain microsecond counts: how
//! long to sleep out the rest of a frame, when a diagnostic snapshot is due,
//! and the loop's fixed intervals. Reading the clock and sleeping stay with
//! the caller.

use vstd::prelude::*;

verus! {

/// The target frame period, in microseconds: about 60 frames per second.
pub const FRAME_PERIOD_US: u64 = 16667;

/// How far apart diagnostic snapshots are due, in microseconds: about every
/// two seconds.
pub const SNAPSHOT_INTERVAL_US: u64 = 2000000;

/// How long to back off after a failed write, in microseconds, to avoid a
/// hot error loop against a disconnected or busy device.
pub const ERROR_BACKOFF_US: u64 = 100000;

/// How long to sleep after a frame whose processing took `elapsed_us`: the
/// rest of the period, measured from the start of the frame, or nothing when
/// processing already exceeded the period — missed time is never compensated
/// by bursting.
pub fn frame_sleep_us(elapsed_us: u64, period_us: u64) -> (sleep_us: u64)
    ensures
        sleep_us == if elapsed_us < period_us {
            period_us - elapsed_us
        } else {
            0
        },
{
    if elapsed_us < period_us {
        period_us - elapsed_us
    } else {
        0
    }
}

/// Whether a diagnostic snapshot is due, `interval_us` or more after the last
/// one.
pub fn snapshot_due(since_last_us: u64, interval_us: u64) -> (due: bool)
    ensures
        due == (since_last_us >= interval_us),
{
    since_last_us >= interval_us
}

} // verus!
