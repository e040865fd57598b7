//! Unix-epoch lifecycle timestamps.

use vstd::prelude::*;

verus! {

/// Unix-epoch timestamps tracking the lifecycle of a task.
#[derive(Debug, Clone, PartialEq, Eq, Structural)]
pub struct TaskTimestamps {
    /// When the task was created (milliseconds since Unix epoch).
    pub created_at: u64,
    /// When the task started executing.
    pub started_at: Option<u64>,
    /// When the task reached a terminal state.
    pub completed_at: Option<u64>,
}

#[verifier::external_type_specification]
#[verifier::external_body]
pub struct ExSystemTime(std::time::SystemTime);

#[verifier::external_type_specification]
#[verifier::external_body]
pub struct ExSystemTimeError(std::time::SystemTimeError);

/// The current reading of the system clock.
///
/// Calls `SystemTime::now()`. The reading depends on the clock, so nothing
/// is claimed of it.
#[verifier::external_body]
fn clock_now() -> std::time::SystemTime {
    std::time::SystemTime::now()
}

/// How long after the Unix epoch `t` lies, or an error when it lies before.
///
/// Calls `t.duration_since(UNIX_EPOCH)`. Both values are opaque here, so
/// nothing is claimed of the outcome.
#[verifier::external_body]
fn since_unix_epoch(t: &std::time::SystemTime) -> Result<std::time::Duration, std::time::SystemTimeError> {
    t.duration_since(std::time::SystemTime::UNIX_EPOCH)
}

/// The whole milliseconds in `d`.
///
/// Calls `Duration::as_millis`. A `Duration` is opaque here, so nothing is
/// claimed of the count.
#[verifier::external_body]
fn whole_millis(d: &std::time::Duration) -> u128 {
    d.as_millis()
}

/// Reads the system clock: whole milliseconds since the Unix epoch, or
/// `None` when the clock reads before the epoch.
fn epoch_millis() -> Option<u128> {
    let t = clock_now();
    match since_unix_epoch(&t) {
        Ok(d) => Some(whole_millis(&d)),
        Err(_) => None,
    }
}

/// A clock reading as a `u64` count of milliseconds: saturated at
/// `u64::MAX`, and zero for a clock before the epoch.
pub open spec fn epoch_ms_of(reading: Option<u128>) -> u64 {
    match reading {
        Some(ms) => if ms > u64::MAX {
            u64::MAX
        } else {
            ms as u64
        },
        None => 0,
    }
}

/// The elapsed milliseconds between a start and an end, when both are
/// known: an end before the start (a regressed wall clock) saturates to 0.
pub open spec fn elapsed_ms(started: Option<u64>, completed: Option<u64>) -> Option<u64> {
    match (started, completed) {
        (Some(start), Some(end)) => Some(
            if end >= start {
                (end - start) as u64
            } else {
                0
            },
        ),
        _ => None,
    }
}

/// The `created_at` value `now` records for a clock reading: whole
/// milliseconds saturated at `u64::MAX`, zero for a clock before the epoch.
pub fn clamp_reading(reading: Option<u128>) -> (r: u64)
    ensures
        r == epoch_ms_of(reading),
{
    match reading {
        Some(ms) => if ms > u64::MAX as u128 {
            u64::MAX
        } else {
            ms as u64
        },
        None => 0,
    }
}

impl TaskTimestamps {
    /// Create timestamps with `created_at` set to the current time.
    pub fn now() -> (r: Self)
        ensures
            r.started_at is None,
            r.completed_at is None,
    {
        TaskTimestamps { created_at: clamp_reading(epoch_millis()), started_at: None, completed_at: None }
    }

    /// The wall-clock duration in milliseconds between `started_at` and
    /// `completed_at`, if both are set.
    pub fn duration_ms(&self) -> (r: Option<u64>)
        ensures
            r == elapsed_ms(self.started_at, self.completed_at),
    {
        match (self.started_at, self.completed_at) {
            (Some(start), Some(end)) => Some(end.saturating_sub(start)),
            _ => None,
        }
    }
}

} // verus!
