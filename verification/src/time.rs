//! The time in milliseconds, read from a clock that the caller owns.

use vstd::prelude::*;

verus! {

use crate::fault::Fault;
use crate::timing::{ClockState, StopWatch, OPERATING_FREQUENCY_HZ};

/// The milliseconds since the epoch that a clock in state `state` reports
/// for the reading `cycle_count`.
pub open spec fn milli_sec_reading(state: ClockState, cycle_count: u32) -> Result<u32, Fault> {
    match state.verdict(cycle_count) {
        Err(error) => Err(Fault::Clock(error)),
        Ok(()) => {
            let milli_sec = state.next(cycle_count).cycles() / 48_000;
            if milli_sec <= u32::MAX {
                Ok(milli_sec as u32)
            } else {
                Err(Fault::TimeOutOfRange)
            }
        },
    }
}

/// Takes in a reading of the counter and gives the whole milliseconds since
/// the epoch.
pub fn get_milli_sec_since_epoch(stopwatch: &mut StopWatch, cycle_count: u32) -> (outcome: Result<
    u32,
    Fault,
>)
    ensures
        final(stopwatch)@ == old(stopwatch)@.next(cycle_count),
        outcome == milli_sec_reading(old(stopwatch)@, cycle_count),
{
    match stopwatch.cycles_since_epoch(cycle_count) {
        Err(error) => Err(Fault::Clock(error)),
        Ok(cycles) => {
            let milli_sec: u64 = cycles / ((OPERATING_FREQUENCY_HZ / 1_000) as u64);
            if milli_sec <= u32::MAX as u64 {
                Ok(milli_sec as u32)
            } else {
                Err(Fault::TimeOutOfRange)
            }
        },
    }
}

} // verus!
