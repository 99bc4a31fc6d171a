//! The system clock: what it reads, and the Unix second that a reading falls
//! in. A reading on either side of the epoch is taken; none stops the
//! library.

use vstd::prelude::*;

verus! {

/// A reading of the clock, as a distance from the Unix epoch in whole
/// seconds and the nanoseconds of the second begun.
#[derive(Clone, Copy, Debug, PartialEq, Eq, Structural)]
pub enum ClockReading {
    /// At the epoch or this long after it.
    After { secs: u64, nanos: u32 },
    /// This long before the epoch.
    Before { secs: u64, nanos: u32 },
}

/// The Unix second that a reading falls in: the seconds since the epoch,
/// rounded down, so that half a second before the epoch falls in second -1.
/// A reading farther from the epoch than 64 signed bits count is given the
/// farthest second on its side.
pub open spec fn unix_second_of(reading: ClockReading) -> int {
    match reading {
        ClockReading::After { secs, nanos } => if secs <= i64::MAX {
            secs as int
        } else {
            i64::MAX as int
        },
        ClockReading::Before { secs, nanos } => {
            let begun = if nanos == 0 {
                secs as int
            } else {
                secs + 1
            };
            if begun <= -i64::MIN {
                -begun
            } else {
                i64::MIN as int
            }
        },
    }
}

/// std's `SystemTime`, carried from the clock to the reading as it is.
#[verifier::external_type_specification]
#[verifier::external_body]
pub struct ExSystemTime(std::time::SystemTime);

/// Calls `std::time::SystemTime::now`. What comes back is the clock's word,
/// so nothing is claimed of it.
#[verifier::external_body]
fn system_time_now() -> std::time::SystemTime {
    std::time::SystemTime::now()
}

/// Calls `SystemTime::duration_since` with `UNIX_EPOCH` and hands out the
/// distance that it gives, after the epoch or, from its error, before it.
/// Nothing is claimed of the numbers.
#[verifier::external_body]
fn distance_from_epoch(time: &std::time::SystemTime) -> ClockReading {
    match time.duration_since(std::time::UNIX_EPOCH) {
        Ok(after) => ClockReading::After { secs: after.as_secs(), nanos: after.subsec_nanos() },
        Err(before) => ClockReading::Before {
            secs: before.duration().as_secs(),
            nanos: before.duration().subsec_nanos(),
        },
    }
}

impl ClockReading {
    /// Reads the clock.
    pub(crate) fn take() -> ClockReading {
        let time = system_time_now();
        distance_from_epoch(&time)
    }

    /// The Unix second that this reading falls in.
    pub fn unix_second(&self) -> (second: i64)
        ensures
            second == unix_second_of(*self),
    {
        match *self {
            ClockReading::After { secs, nanos: _ } => {
                if secs <= i64::MAX as u64 {
                    secs as i64
                } else {
                    i64::MAX
                }
            },
            ClockReading::Before { secs, nanos } => {
                if secs > i64::MAX as u64 {
                    i64::MIN
                } else if nanos == 0 {
                    -(secs as i64)
                } else {
                    -(secs as i64) - 1
                }
            },
        }
    }
}

} // verus!
