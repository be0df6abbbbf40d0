//! The sample period: a strictly positive time interval, held as a whole
//! number of nanoseconds.

use crate::error::NexusError;
use vstd::prelude::*;

verus! {

/// Declares chrono's `TimeDelta` so that durations can cross the library
/// boundary; the type stays opaque and only the wrapper below reads it.
#[verifier::external_type_specification]
#[verifier::external_body]
pub struct ExTimeDelta(chrono::TimeDelta);

/// The whole number of nanoseconds in a duration, or `None` when that count
/// exceeds an `i64`: the result of chrono's `TimeDelta::num_nanoseconds`,
/// which computes it from the duration's fields alone.
pub uninterp spec fn time_delta_nanos_of(duration: chrono::TimeDelta) -> Option<i64>;

/// Relies on chrono's `TimeDelta::num_nanoseconds`: the whole number of
/// nanoseconds in the duration, or `None` when that count exceeds an `i64`.
/// The result depends on the duration alone.
#[verifier::external_body]
fn time_delta_total_nanoseconds(duration: &chrono::TimeDelta) -> (r: Option<i64>)
    ensures
        r == time_delta_nanos_of(*duration),
{
    duration.num_nanoseconds()
}

/// A strictly positive sampling interval: the fixed time between two
/// consecutive samples of a representation.
#[derive(Clone, Copy, Debug)]
pub struct SamplePeriod {
    nanoseconds: u64,
}

impl SamplePeriod {
    /// The interval as a whole number of nanoseconds; strictly positive for
    /// every value of this type.
    pub closed spec fn nanos(self) -> u64 {
        self.nanoseconds
    }

    /// Every value of this type holds a strictly positive interval.
    #[verifier::type_invariant]
    pub open spec fn positive(self) -> bool {
        self.nanos() > 0
    }

    /// Builds a sample period from a whole number of nanoseconds. Fails with
    /// `InvalidSamplePeriod` exactly when the count is not strictly positive.
    pub fn from_nanos(nanoseconds: i64) -> (r: Result<SamplePeriod, NexusError>)
        ensures
            r is Ok <==> nanoseconds > 0,
            r is Ok ==> r->Ok_0.nanos() == nanoseconds,
            r is Err ==> r->Err_0 == NexusError::InvalidSamplePeriod,
    {
        if nanoseconds > 0 {
            Ok(SamplePeriod { nanoseconds: nanoseconds as u64 })
        } else {
            Err(NexusError::InvalidSamplePeriod)
        }
    }

    /// Builds a sample period from a `chrono` duration. Succeeds exactly
    /// when the duration's nanosecond count is strictly positive (and fits
    /// an `i64`, beyond which chrono itself yields no count), carrying that
    /// count; otherwise it fails with `InvalidSamplePeriod`.
    pub fn try_new(duration: chrono::TimeDelta) -> (r: Result<SamplePeriod, NexusError>)
        ensures
            r is Ok <==> time_delta_nanos_of(duration) is Some && time_delta_nanos_of(duration)->0
                > 0,
            r is Ok ==> r->Ok_0.nanos() == time_delta_nanos_of(duration)->0,
            r is Err ==> r->Err_0 == NexusError::InvalidSamplePeriod,
    {
        match time_delta_total_nanoseconds(&duration) {
            Some(nanoseconds) => SamplePeriod::from_nanos(nanoseconds),
            None => Err(NexusError::InvalidSamplePeriod),
        }
    }

    /// Reads the interval back as nanoseconds.
    pub fn as_nanos(&self) -> (r: u64)
        ensures
            r == self.nanos(),
            r > 0,
    {
        proof {
            use_type_invariant(self);
        }
        self.nanoseconds
    }
}

} // verus!
