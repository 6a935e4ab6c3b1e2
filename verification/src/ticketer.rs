//! The time, as tickets and certificates need it.

use crate::error::TlsError;
use vstd::prelude::*;

verus! {

/// What the system's clock shows.
#[verifier::external_type_specification]
#[verifier::external_body]
pub struct ExSystemTime(std::time::SystemTime);

/// `std::time::SystemTime::now`: what the clock shows is not known.
#[verifier::external_body]
fn system_time() -> (r: std::time::SystemTime) {
    std::time::SystemTime::now()
}

/// Whether the clock showed this time: it is what a reading of the clock returned. Nothing
/// else is known to be.
pub closed spec fn clock_showed(shown: std::time::SystemTime) -> bool {
    call_ensures(system_time, (), shown)
}

/// Reads the clock.
fn read_clock() -> (r: std::time::SystemTime)
    ensures
        clock_showed(r),
{
    let read = system_time;
    read()
}

/// What `std::time::SystemTime::duration_since` measures from `std::time::UNIX_EPOCH`.
pub uninterp spec fn since_epoch_of(shown: std::time::SystemTime) -> Option<std::time::Duration>;

/// `std::time::SystemTime::duration_since` of `std::time::UNIX_EPOCH`: how long after the
/// epoch a time is, or `None` where it is before it. The outcome depends on the time alone.
#[verifier::external_body]
fn since_epoch(shown: std::time::SystemTime) -> (r: Option<std::time::Duration>)
    ensures
        r == since_epoch_of(shown),
{
    shown.duration_since(std::time::UNIX_EPOCH).ok()
}

/// What `std::time::Duration::as_secs` counts.
pub uninterp spec fn whole_secs_of(duration: std::time::Duration) -> u64;

/// `std::time::Duration::as_secs`: the whole seconds of a duration, which depend on the
/// duration alone.
#[verifier::external_body]
fn whole_secs(duration: std::time::Duration) -> (r: u64)
    ensures
        r == whole_secs_of(duration),
{
    duration.as_secs()
}

/// Whether a reading of the clock came to this: a time in whole seconds since the epoch, or
/// none where the clock stood before the epoch.
pub open spec fn clock_read(now: Option<u64>) -> bool {
    exists|shown: std::time::SystemTime| #[trigger]
        clock_showed(shown) && now == match since_epoch_of(shown) {
            Some(duration) => Some(whole_secs_of(duration)),
            None => None,
        }
}

/// A time where the clock could be read, in whole seconds since the epoch.
pub open spec fn time_view(now: Option<TimeBase>) -> Option<u64> {
    match now {
        Some(now) => Some(now.secs),
        None => None,
    }
}

/// A time, in whole seconds since the epoch.
#[derive(Clone, Copy, PartialEq, Eq, Structural, Debug)]
pub struct TimeBase {
    pub secs: u64,
}

impl TimeBase {
    /// What the clock shows, or the error that it cannot be had.
    pub fn now() -> (r: Result<TimeBase, TlsError>)
        ensures
            r matches Err(err) ==> err is FailedToGetCurrentTime,
            clock_read(
                match r {
                    Ok(now) => Some(now.secs),
                    Err(_) => None,
                },
            ),
    {
        let shown: std::time::SystemTime = read_clock();
        assert(clock_showed(shown));
        TimeBase::of_system_time(shown)
    }

    /// A time that the system's clock showed, or the error that it is before the epoch.
    pub fn of_system_time(shown: std::time::SystemTime) -> (r: Result<TimeBase, TlsError>)
        ensures
            match since_epoch_of(shown) {
                Some(duration) => r == Ok::<TimeBase, TlsError>(
                    TimeBase { secs: whole_secs_of(duration) },
                ),
                None => r == Err::<TimeBase, TlsError>(TlsError::FailedToGetCurrentTime),
            },
    {
        match since_epoch(shown) {
            Some(duration) => TimeBase::of_clock(Some(whole_secs(duration))),
            None => TimeBase::of_clock(None),
        }
    }

    /// The time that a clock shows, or the error that it cannot be had.
    pub fn of_clock(shown: Option<u64>) -> (r: Result<TimeBase, TlsError>)
        ensures
            match shown {
                Some(secs) => r == Ok::<TimeBase, TlsError>(TimeBase { secs }),
                None => r == Err::<TimeBase, TlsError>(TlsError::FailedToGetCurrentTime),
            },
    {
        match shown {
            Some(secs) => Ok(TimeBase { secs }),
            None => Err(TlsError::FailedToGetCurrentTime),
        }
    }

    pub fn as_secs(&self) -> (r: u64)
        ensures
            r == self.secs,
    {
        self.secs
    }
}

} // verus!
