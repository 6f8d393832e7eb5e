//! What can go wrong when a task does its work.

use vstd::prelude::*;

verus! {

use crate::arbiter::ArbiterError;
use crate::encoders::EncoderError;
use crate::scheduler::ScheduleError;
use crate::timing::ClockError;
use crate::velocity::VelocityError;

/// Why a task did not do its work.
#[derive(Clone, Copy, Debug, PartialEq, Eq, Structural)]
pub enum Fault {
    /// The processor runs at or above the task's priority: the task stays
    /// pending.
    Pending,
    /// The arbiter refused a resource.
    Arbiter(ArbiterError),
    /// The clock refused the reading of the counter.
    Clock(ClockError),
    /// The encoder refused the reading of its phases.
    Encoder(EncoderError),
    /// The periodic task refused the step.
    Schedule(ScheduleError),
    /// No velocity could be given.
    Velocity(VelocityError),
    /// The time in milliseconds does not fit 32 bits.
    TimeOutOfRange,
}

} // verus!
