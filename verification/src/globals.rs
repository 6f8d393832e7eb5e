//! The earlier, millisecond clock. It keeps one 32-bit count of
//! milliseconds and corrects it when the cycle counter starts over; it is
//! kept for the callers that still measure time this way.

use vstd::prelude::*;

verus! {

use crate::timing::ClockError;

/// Frequency of the core clock that drives the cycle counter, in hertz.
pub const OPERATING_FREQUENCY_HZ: u32 = 48_000_000;

/// Whole milliseconds that `cycle_count` ticks of the counter take.
pub open spec fn milli_sec_of_cycles(cycle_count: u32) -> u32 {
    cycle_count / 48_000
}

/// The longest time, in whole milliseconds, that the cycle counter can show
/// before it starts over.
pub open spec fn max_time_milli_sec() -> u32 {
    89_478
}

/// A clock that remembers the last time it reported, in milliseconds.
pub struct StopWatch {
    last_time_since_the_epoch_milli_sec: u32,
}

impl StopWatch {
    /// The time that the clock reported last.
    pub closed spec fn last_time_milli_sec(&self) -> u32 {
        self.last_time_since_the_epoch_milli_sec
    }

    /// The time that the clock reports for a reading of `cycle_count` which
    /// it accepts: the time on the counter where that is later than the last
    /// report, and otherwise that time moved past one full run of the
    /// counter.
    pub open spec fn corrected(&self, cycle_count: u32) -> u32 {
        if milli_sec_of_cycles(cycle_count) > self.last_time_milli_sec() {
            milli_sec_of_cycles(cycle_count)
        } else {
            (max_time_milli_sec() + milli_sec_of_cycles(cycle_count)) as u32
        }
    }

    /// Starts the clock at the counter's present value.
    pub fn new(cycle_count: u32) -> (clock: Self)
        ensures
            clock.last_time_milli_sec() == milli_sec_of_cycles(cycle_count),
    {
        StopWatch {
            last_time_since_the_epoch_milli_sec: cycle_count / (OPERATING_FREQUENCY_HZ / 1_000),
        }
    }

    /// The longest time, in whole milliseconds, that the cycle counter can
    /// show before it starts over.
    pub fn dwt_max_time_milli_sec() -> (max: u32)
        ensures
            max == max_time_milli_sec(),
            max == u32::MAX / 48_000,
    {
        u32::MAX / (OPERATING_FREQUENCY_HZ / 1_000)
    }

    /// Takes in a reading of the counter and gives the milliseconds since
    /// the epoch. A reading that falls in the same millisecond as the last
    /// report is refused and leaves the clock as it was.
    pub fn milli_sec_since_epoch(&mut self, cycle_count: u32) -> (outcome: Result<u32, ClockError>)
        ensures
            milli_sec_of_cycles(cycle_count) == old(self).last_time_milli_sec() ==> outcome == Err::<
                u32,
                ClockError,
            >(ClockError::RepeatedReading) && *final(self) == *old(self),
            milli_sec_of_cycles(cycle_count) != old(self).last_time_milli_sec() ==> outcome == Ok::<
                u32,
                ClockError,
            >(old(self).corrected(cycle_count)) && final(self).last_time_milli_sec() == old(self).corrected(cycle_count),
    {
        let cycles_per_milli_sec: u32 = OPERATING_FREQUENCY_HZ / 1_000;
        assert(cycles_per_milli_sec == 48_000);
        let current_time_since_epoch_milli_sec: u32 = cycle_count / cycles_per_milli_sec;
        if current_time_since_epoch_milli_sec > self.last_time_since_the_epoch_milli_sec {
            self.last_time_since_the_epoch_milli_sec = current_time_since_epoch_milli_sec;
        } else if current_time_since_epoch_milli_sec < self.last_time_since_the_epoch_milli_sec {
            assert(current_time_since_epoch_milli_sec <= 89_478);
            self.last_time_since_the_epoch_milli_sec = Self::dwt_max_time_milli_sec()
                + current_time_since_epoch_milli_sec;
        } else {
            return Err(ClockError::RepeatedReading);
        }
        Ok(self.last_time_since_the_epoch_milli_sec)
    }
}

} // verus!
