//! The time in milliseconds, read from the clock that all contexts share.

use vstd::prelude::*;

verus! {

use crate::arbiter::{Arbiter, ArbiterError, SharedCell};
use crate::fault::Fault;
use crate::time::milli_sec_reading;
use crate::timing::StopWatch;

/// Takes the shared clock, hands it a reading of the counter and gives
/// the whole milliseconds since the epoch. Where the arbiter refuses the
/// clock, or the clock was never set up, nothing changes.
pub fn get_milli_sec_since_epoch(
    arbiter: &mut Arbiter,
    stopwatch: &mut SharedCell<StopWatch>,
    cycle_count: u32,
) -> (outcome: Result<u32, Fault>)
    requires
        old(arbiter).wf(),
    ensures
        final(arbiter).wf(),
        final(arbiter).ceilings() == old(arbiter).ceilings(),
        final(arbiter).frames() == old(arbiter).frames(),
        final(stopwatch).resource() == old(stopwatch).resource(),
        match (old(arbiter).refusal(old(stopwatch).resource()), old(stopwatch).content()) {
            (Some(error), _) => {
                &&& outcome == Err::<u32, Fault>(Fault::Arbiter(error))
                &&& final(stopwatch).content() == old(stopwatch).content()
            },
            (None, None) => {
                &&& outcome == Err::<u32, Fault>(Fault::Arbiter(ArbiterError::Uninitialized))
                &&& final(stopwatch).content() is None
            },
            (None, Some(clock)) => {
                &&& outcome == milli_sec_reading(clock@, cycle_count)
                &&& final(stopwatch).content() matches Some(after) && after@ == clock@.next(
                    cycle_count,
                )
            },
        },
{
    let read = |clock: StopWatch| -> (out: (StopWatch, Result<u32, Fault>))
        ensures
            out.0@ == clock@.next(cycle_count),
            out.1 == milli_sec_reading(clock@, cycle_count),
        {
            let mut clock = clock;
            let outcome = crate::time::get_milli_sec_since_epoch(&mut clock, cycle_count);
            (clock, outcome)
        };
    match arbiter.with_lock(stopwatch, read) {
        Err(error) => Err(Fault::Arbiter(error)),
        Ok(outcome) => outcome,
    }
}

} // verus!
