//! The telemetry task: once per period it reads the time and the angles
//! and arms itself again.

use vstd::prelude::*;

verus! {

use crate::arbiter::{lemma_new_context_finds_resource_free, Arbiter, ArbiterError};
use crate::encoders::Encoder;
use crate::fault::Fault;
use crate::init::{table_ceiling, Shared, Snapshot, TELEMETRY_PRIORITY};
use crate::scheduler::{
    lemma_overrun_within_period,
    overrun,
    PeriodicState,
    PeriodicTask,
    ResourceId,
    ScheduleError,
};
use crate::timing::{lemma_reading_advances, ClockError, ClockState, Instant, StopWatch};

/// One line of telemetry: the time in milliseconds since the epoch, and the
/// angles of the cart's wheel and of the pendulum in thousandths of a
/// degree.
#[derive(Clone, Copy, Debug, PartialEq, Eq, Structural)]
pub struct Record {
    pub timestamp_milli_sec: u64,
    pub cart_angle_millidegrees: i64,
    pub pendulum_angle_millidegrees: i64,
}

/// The time in milliseconds that the clock in state `clock` gives for the
/// reading `cycle_count`.
pub open spec fn milli_sec_after(clock: ClockState, cycle_count: u32) -> int {
    clock.next(cycle_count).cycles() / 48_000
}

/// Timestamps never go back: the time that the clock gives for a reading
/// it accepts is not before the time it had shown already.
pub proof fn lemma_timestamps_never_go_back(clock: ClockState, cycle_count: u32)
    ensures
        milli_sec_after(clock, cycle_count) >= clock.cycles() / 48_000,
{
    if clock.verdict(cycle_count) is Ok {
        lemma_reading_advances(clock, cycle_count);
    }
}

/// What the telemetry task reports once it runs, under the ceilings
/// `ceilings`, while the cells hold `before` and the task is as `task`
/// says.
///
/// It reads the clock and the two angles, each under its lock, and
/// reports the first refusal it meets. If it is armed and due, it reports
/// the record and the delay to its next deadline: one period, less the time
/// by which it has overrun the last.
pub open spec fn readings_outcome(
    ceilings: Seq<u8>,
    before: Snapshot,
    task: PeriodicTask,
    cycle_count: u32,
) -> Result<(Record, u32), Fault> {
    let now = milli_sec_after(before.clock, cycle_count);
    if ceilings[ResourceId::StopWatch.index() as int] < TELEMETRY_PRIORITY {
        Err(Fault::Arbiter(ArbiterError::CeilingViolation))
    } else if before.clock.verdict(cycle_count) is Err {
        Err(Fault::Clock(before.clock.verdict(cycle_count)->Err_0))
    } else if ceilings[ResourceId::CartEncoder.index() as int] < TELEMETRY_PRIORITY
        || ceilings[ResourceId::PendulumEncoder.index() as int] < TELEMETRY_PRIORITY {
        Err(Fault::Arbiter(ArbiterError::CeilingViolation))
    } else if task.state() != PeriodicState::Armed {
        Err(Fault::Schedule(ScheduleError::NotArmed))
    } else if now < task.deadline() {
        Err(Fault::Schedule(ScheduleError::NotDue))
    } else {
        Ok(
            (
                Record {
                    timestamp_milli_sec: now as u64,
                    cart_angle_millidegrees: before.cart.current.angle.millidegrees_from_origin() as i64,
                    pendulum_angle_millidegrees: before.pendulum.current.angle.millidegrees_from_origin() as i64,
                },
                (task.period() - overrun(task.period(), now as u64, task.deadline())) as u32,
            ),
        )
    }
}

/// What the telemetry task reports when its timer fires while the
/// processor runs at `arbiter`'s priority: it stays pending unless its
/// priority is above the processor's, and otherwise runs.
pub open spec fn log_outcome(
    arbiter: Arbiter,
    before: Snapshot,
    task: PeriodicTask,
    cycle_count: u32,
) -> Result<(Record, u32), Fault> {
    if TELEMETRY_PRIORITY <= arbiter.priority() {
        Err(Fault::Pending)
    } else {
        readings_outcome(arbiter.ceilings(), before, task, cycle_count)
    }
}

/// Under the ceilings of the firmware's task table the telemetry task is
/// never refused a resource.
pub proof fn lemma_task_table_admits_telemetry(
    arbiter: Arbiter,
    before: Snapshot,
    task: PeriodicTask,
    cycle_count: u32,
)
    requires
        forall|resource: ResourceId| #[trigger] arbiter.ceiling(resource) == table_ceiling(resource),
    ensures
        !(log_outcome(arbiter, before, task, cycle_count) matches Err(Fault::Arbiter(_))),
{
    assert(arbiter.ceiling(ResourceId::StopWatch) == table_ceiling(ResourceId::StopWatch));
    assert(arbiter.ceiling(ResourceId::CartEncoder) == table_ceiling(ResourceId::CartEncoder));
    assert(arbiter.ceiling(ResourceId::PendulumEncoder) == table_ceiling(
        ResourceId::PendulumEncoder,
    ));
}

/// How the task `after` follows from the task `before` when the telemetry
/// task has reported `outcome`: with a record, it is armed for the deadline
/// that lies the reported delay after the record's time, a whole number of
/// periods after the last; without, it is as it was.
pub open spec fn rearmed(
    before: PeriodicTask,
    after: PeriodicTask,
    outcome: Result<(Record, u32), Fault>,
) -> bool {
    &&& after.period() == before.period()
    &&& match outcome {
        Ok((record, delay)) => {
            &&& after.state() == PeriodicState::Armed
            &&& after.deadline() == record.timestamp_milli_sec + delay
            &&& after.phase() == before.phase()
            &&& 0 < delay <= before.period()
        },
        Err(_) => {
            &&& after.state() == before.state()
            &&& after.deadline() == before.deadline()
        },
    }
}

/// The telemetry task: run when its timer fires, with the cycle counter as
/// just read. It changes no encoder. The clock takes in the reading unless
/// the task stayed pending or was refused the clock. When it returns, the
/// processor is back at the priority it had before.
pub fn log_data(shared: &mut Shared, task: &mut PeriodicTask, cycle_count: u32) -> (outcome: Result<
    (Record, u32),
    Fault,
>)
    requires
        old(shared).wf(),
    ensures
        final(shared).wf(),
        final(shared).arbiter.ceilings() == old(shared).arbiter.ceilings(),
        final(shared).arbiter.frames() == old(shared).arbiter.frames(),
        outcome == log_outcome(old(shared).arbiter, old(shared)@, *old(task), cycle_count),
        rearmed(*old(task), *final(task), outcome),
        final(shared)@.cart == old(shared)@.cart,
        final(shared)@.pendulum == old(shared)@.pendulum,
        final(shared)@.clock == if TELEMETRY_PRIORITY <= old(shared).arbiter.priority() || old(shared).arbiter.ceiling(ResourceId::StopWatch) < TELEMETRY_PRIORITY {
            old(shared)@.clock
        } else {
            old(shared)@.clock.next(cycle_count)
        },
{
    if !shared.arbiter.preempt(TELEMETRY_PRIORITY) {
        return Err(Fault::Pending);
    }
    let outcome = read_and_rearm(shared, task, cycle_count);
    let ended = shared.arbiter.complete();
    assert(ended is Ok);
    assert(shared.arbiter.frames() =~= old(shared).arbiter.frames());
    outcome
}

/// The work of the telemetry task once it runs as a context of its own
/// that holds nothing yet: the readings, then the step of the task from
/// armed through running to armed again.
fn read_and_rearm(shared: &mut Shared, task: &mut PeriodicTask, cycle_count: u32) -> (outcome:
    Result<(Record, u32), Fault>)
    requires
        old(shared).wf(),
        old(shared).arbiter.frames().len() > 0,
        old(shared).arbiter.frames().last().kind is Context,
        old(shared).arbiter.base_priority() == TELEMETRY_PRIORITY,
    ensures
        final(shared).wf(),
        final(shared).arbiter.ceilings() == old(shared).arbiter.ceilings(),
        final(shared).arbiter.frames() == old(shared).arbiter.frames(),
        outcome == readings_outcome(
            old(shared).arbiter.ceilings(),
            old(shared)@,
            *old(task),
            cycle_count,
        ),
        rearmed(*old(task), *final(task), outcome),
        final(shared)@.cart == old(shared)@.cart,
        final(shared)@.pendulum == old(shared)@.pendulum,
        final(shared)@.clock == if old(shared).arbiter.ceiling(ResourceId::StopWatch)
            < TELEMETRY_PRIORITY {
            old(shared)@.clock
        } else {
            old(shared)@.clock.next(cycle_count)
        },
{
    proof {
        if shared.arbiter.ceiling(ResourceId::StopWatch) >= TELEMETRY_PRIORITY {
            lemma_new_context_finds_resource_free(shared.arbiter, ResourceId::StopWatch);
        }
        if shared.arbiter.ceiling(ResourceId::CartEncoder) >= TELEMETRY_PRIORITY {
            lemma_new_context_finds_resource_free(shared.arbiter, ResourceId::CartEncoder);
        }
        if shared.arbiter.ceiling(ResourceId::PendulumEncoder) >= TELEMETRY_PRIORITY {
            lemma_new_context_finds_resource_free(shared.arbiter, ResourceId::PendulumEncoder);
        }
    }
    let read = |clock: StopWatch| -> (out: (StopWatch, Result<Instant, ClockError>))
        ensures
            out.0@ == clock@.next(cycle_count),
            match out.1 {
                Ok(instant) => clock@.verdict(cycle_count) is Ok && instant.ticks
                    == out.0@.cycles(),
                Err(error) => clock@.verdict(cycle_count) == Err::<(), ClockError>(error),
            },
        {
            let mut clock = clock;
            let outcome = clock.now(cycle_count);
            (clock, outcome)
        };
    let now: u64 = match shared.arbiter.with_lock(&mut shared.stopwatch, read) {
        Err(error) => {
            return Err(Fault::Arbiter(error));
        },
        Ok(Err(error)) => {
            return Err(Fault::Clock(error));
        },
        Ok(Ok(instant)) => instant.milli_seconds(),
    };
    let angle = |encoder: Encoder| -> (out: (Encoder, i64))
        ensures
            out.0 == encoder,
            out.1 == encoder@.current.angle.millidegrees_from_origin(),
        {
            let angle = encoder.angle().millidegrees();
            (encoder, angle)
        };
    let cart: i64 = match shared.arbiter.with_lock(&mut shared.cart_encoder, angle) {
        Err(error) => {
            return Err(Fault::Arbiter(error));
        },
        Ok(angle) => angle,
    };
    let angle_again = |encoder: Encoder| -> (out: (Encoder, i64))
        ensures
            out.0 == encoder,
            out.1 == encoder@.current.angle.millidegrees_from_origin(),
        {
            let angle = encoder.angle().millidegrees();
            (encoder, angle)
        };
    let pendulum: i64 = match shared.arbiter.with_lock(&mut shared.pendulum_encoder, angle_again) {
        Err(error) => {
            return Err(Fault::Arbiter(error));
        },
        Ok(angle) => angle,
    };
    assert(now == milli_sec_after(old(shared)@.clock, cycle_count));
    assert(now <= 384_307_168_202_282);
    let period: u32 = task.period();
    match task.start(now) {
        Err(error) => Err(Fault::Schedule(error)),
        Ok(()) => {
            proof {
                lemma_overrun_within_period(period, now, task.deadline());
            }
            match task.finish(now) {
                Err(error) => Err(Fault::Schedule(error)),
                Ok(delay) => Ok(
                    (
                        Record {
                            timestamp_milli_sec: now,
                            cart_angle_millidegrees: cart,
                            pendulum_angle_millidegrees: pendulum,
                        },
                        delay,
                    ),
                ),
            }
        },
    }
}

} // verus!
