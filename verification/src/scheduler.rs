//! Scheduling: the static table of tasks with their priorities and the
//! resources they claim, the ceiling that follows for each resource, and
//! the periodic task that re-arms itself without drift.

use vstd::prelude::*;

verus! {

/// The period of the telemetry task, in milliseconds.
pub const LOG_PERIOD_MILLI_SEC: u32 = 100;

/// The number of shared resources.
pub const RESOURCES: usize = 4;

/// The state that contexts share.
#[derive(Clone, Copy, Debug, PartialEq, Eq, Structural)]
pub enum ResourceId {
    StopWatch,
    CartEncoder,
    PendulumEncoder,
    MotorDriver,
}

impl ResourceId {
    /// The place of this resource in a table of all resources.
    pub open spec fn spec_index(&self) -> usize {
        match self {
            ResourceId::StopWatch => 0,
            ResourceId::CartEncoder => 1,
            ResourceId::PendulumEncoder => 2,
            ResourceId::MotorDriver => 3,
        }
    }

    /// The place of this resource in a table of all resources.
    #[verifier::when_used_as_spec(spec_index)]
    pub fn index(&self) -> (index: usize)
        ensures
            index == self.index(),
            index < RESOURCES,
    {
        match self {
            ResourceId::StopWatch => 0,
            ResourceId::CartEncoder => 1,
            ResourceId::PendulumEncoder => 2,
            ResourceId::MotorDriver => 3,
        }
    }
}

/// The four edge interrupts: one for each phase pin of each encoder.
#[derive(Clone, Copy, Debug, PartialEq, Eq, Structural)]
pub enum InterruptLine {
    Exti0,
    Exti1,
    Exti2Tsc,
    Exti3,
}

/// What sets a task going.
#[derive(Clone, Copy, Debug, PartialEq, Eq, Structural)]
pub enum Trigger {
    /// An edge on an interrupt line.
    Edge(InterruptLine),
    /// A timer, every so many milliseconds.
    Periodic(u32),
    /// Nothing: the task runs whenever no other does.
    Background,
}

/// One entry of the task table. A higher priority preempts a lower one.
#[derive(Debug)]
pub struct Task {
    pub priority: u8,
    pub claims: Vec<ResourceId>,
    pub trigger: Trigger,
}

impl Task {
    /// Whether the task is declared to use `resource`.
    pub open spec fn spec_claims(&self, resource: ResourceId) -> bool {
        self.claims@.contains(resource)
    }

    /// Whether the task is declared to use `resource`.
    #[verifier::when_used_as_spec(spec_claims)]
    pub fn claims(&self, resource: ResourceId) -> (claimed: bool)
        ensures
            claimed == self.claims(resource),
    {
        let mut i: usize = 0;
        while i < self.claims.len()
            invariant
                i <= self.claims.len(),
                forall|k: int| 0 <= k < i ==> self.claims@[k] != resource,
            decreases self.claims.len() - i,
        {
            if self.claims[i] == resource {
                return true;
            }
            i += 1;
        }
        false
    }
}

/// Whether `ceiling` is the priority ceiling of `resource` under the task
/// table `tasks`: the highest priority of any task that claims the
/// resource, and zero where no task claims it.
pub open spec fn is_ceiling(tasks: Seq<Task>, resource: ResourceId, ceiling: u8) -> bool {
    &&& forall|i: int|
        0 <= i < tasks.len() && (#[trigger] tasks[i]).claims(resource) ==> tasks[i].priority
            <= ceiling
    &&& ceiling == 0 || exists|i: int|
        0 <= i < tasks.len() && (#[trigger] tasks[i]).claims(resource) && tasks[i].priority
            == ceiling
}

/// The priority ceiling of `resource` under the task table `tasks`.
pub fn ceiling(tasks: &Vec<Task>, resource: ResourceId) -> (ceiling: u8)
    ensures
        is_ceiling(tasks@, resource, ceiling),
{
    let mut highest: u8 = 0;
    let mut i: usize = 0;
    while i < tasks.len()
        invariant
            i <= tasks.len(),
            is_ceiling(tasks@.take(i as int), resource, highest),
        decreases tasks.len() - i,
    {
        let ghost before = tasks@.take(i as int);
        let ghost after = tasks@.take(i + 1);
        let ghost earlier = highest;
        if tasks[i].claims(resource) && tasks[i].priority > highest {
            highest = tasks[i].priority;
        }
        proof {
            assert forall|k: int| 0 <= k < after.len() && (#[trigger] after[k]).claims(
                resource,
            ) implies after[k].priority <= highest by {
                if k < i {
                    assert(before[k] == after[k]);
                }
            }
            if highest != 0 {
                if highest == earlier {
                    let k = choose|k: int|
                        0 <= k < before.len() && (#[trigger] before[k]).claims(resource)
                            && before[k].priority == earlier;
                    assert(after[k] == before[k]);
                } else {
                    assert(after[i as int] == tasks@[i as int]);
                }
            }
        }
        i += 1;
    }
    assert(tasks@.take(tasks.len() as int) =~= tasks@);
    highest
}

/// The number of priority levels that the interrupt controller tells
/// apart.
pub const PRIORITY_LEVELS: u8 = 16;

/// The value that the interrupt controller takes for a task's priority.
/// The controller counts the other way round, a smaller value being the
/// more urgent, and keeps the level in the upper four bits of a byte.
pub open spec fn spec_hardware_priority(priority: u8) -> Option<u8> {
    if 1 <= priority <= PRIORITY_LEVELS {
        Some(((PRIORITY_LEVELS - priority) * 16) as u8)
    } else {
        None
    }
}

/// The value that the interrupt controller takes for a task's priority;
/// `None` for the background's priority, which no interrupt has, and for
/// priorities beyond the controller's levels.
#[verifier::when_used_as_spec(spec_hardware_priority)]
pub fn hardware_priority(priority: u8) -> (value: Option<u8>)
    ensures
        value == hardware_priority(priority),
{
    if priority == 0 || priority > PRIORITY_LEVELS {
        None
    } else {
        let level: u8 = PRIORITY_LEVELS - priority;
        assert(level << 4 == level * 16) by (bit_vector)
            requires
                level < 16,
        ;
        Some(level << 4)
    }
}

/// The controller's values keep the order of the priorities, reversed: the
/// higher of two priorities has the smaller value.
pub proof fn lemma_hardware_priority_reverses_order(lower: u8, higher: u8)
    requires
        1 <= lower < higher <= PRIORITY_LEVELS,
    ensures
        hardware_priority(lower) is Some,
        hardware_priority(higher) is Some,
        hardware_priority(higher)->0 < hardware_priority(lower)->0,
{
}

/// The most ticks that the telemetry timer counts down in one go: the
/// timer is 24 bits wide.
pub const TIMER_SPAN: u32 = 0x100_0000;

/// The value to load into the telemetry timer so that it fires
/// `delay_milli_sec` from now: the ticks in the delay less one, since the
/// timer fires one tick after it has counted down to zero. The timer
/// counts at least one tick and at most its span.
pub open spec fn spec_timer_reload(delay_milli_sec: u32, tick_frequency_hz: u32) -> u32 {
    let ticks = delay_milli_sec * (tick_frequency_hz / 1_000);
    if ticks < 1 {
        0
    } else if ticks > TIMER_SPAN {
        (TIMER_SPAN - 1) as u32
    } else {
        (ticks - 1) as u32
    }
}

/// The value to load into the telemetry timer so that it fires
/// `delay_milli_sec` from now.
#[verifier::when_used_as_spec(spec_timer_reload)]
pub fn timer_reload(delay_milli_sec: u32, tick_frequency_hz: u32) -> (reload: u32)
    ensures
        reload == timer_reload(delay_milli_sec, tick_frequency_hz),
        reload < TIMER_SPAN,
{
    let ticks_per_milli_sec: u64 = (tick_frequency_hz / 1_000) as u64;
    assert(delay_milli_sec * ticks_per_milli_sec <= 0xffff_ffff * 0xffff_ffff) by (nonlinear_arith)
        requires
            delay_milli_sec <= 0xffff_ffff,
            ticks_per_milli_sec <= 0xffff_ffff,
    ;
    let ticks: u64 = delay_milli_sec as u64 * ticks_per_milli_sec;
    if ticks < 1 {
        0
    } else if ticks > TIMER_SPAN as u64 {
        TIMER_SPAN - 1
    } else {
        (ticks - 1) as u32
    }
}

/// How far past the last deadline `now` lies, folded into one period.
pub open spec fn overrun(period: u32, now: u64, previous_deadline: u64) -> int {
    (now - previous_deadline) % (period as int)
}

/// The overrun is less than one period.
pub proof fn lemma_overrun_within_period(period: u32, now: u64, previous_deadline: u64)
    requires
        period > 0,
        now >= previous_deadline,
    ensures
        0 <= overrun(period, now, previous_deadline) < period,
{
    vstd::arithmetic::div_mod::lemma_mod_pos_bound(now - previous_deadline, period as int);
}

/// The delay after which a periodic task that ends at `now` runs next: one
/// period, less the time by which it has overrun the deadline it was
/// released at. `None` for a period of zero, or for a deadline that
/// still lies ahead.
pub fn next_delay(period: u32, now: u64, previous_deadline: u64) -> (delay: Option<u32>)
    ensures
        delay is Some <==> period > 0 && now >= previous_deadline,
        delay matches Some(d) ==> {
            &&& d == period - overrun(period, now, previous_deadline)
            &&& 0 < d <= period
            &&& (now + d - previous_deadline) % (period as int) == 0
            &&& now - previous_deadline < period ==> d == period - (now - previous_deadline)
        },
{
    if period == 0 || now < previous_deadline {
        return None;
    }
    let late: u64 = now - previous_deadline;
    let over_waited: u64 = late % (period as u64);
    let delay: u32 = period - (over_waited as u32);
    proof {
        lemma_lands_on_period(late as int, period as int);
    }
    Some(delay)
}

/// A time moved on by what it lacks to the next multiple of the period is
/// a multiple of the period.
proof fn lemma_lands_on_period(late: int, period: int)
    requires
        0 <= late,
        0 < period,
    ensures
        (late + (period - late % period)) % period == 0,
        late < period ==> late % period == late,
{
    let q = late / period;
    let r = late % period;
    assert(late == period * q + r) by {
        vstd::arithmetic::div_mod::lemma_fundamental_div_mod(late, period);
    }
    assert(late + (period - r) == period * (q + 1)) by (nonlinear_arith)
        requires
            late == period * q + r,
    ;
    assert((period * (q + 1)) % period == 0) by {
        vstd::arithmetic::div_mod::lemma_mod_multiples_basic(q + 1, period);
        assert((q + 1) * period == period * (q + 1)) by (nonlinear_arith);
    }
    if late < period {
        vstd::arithmetic::div_mod::lemma_small_mod(late as nat, period as nat);
    }
}

/// Where a periodic task stands: waiting for its deadline, or at work.
#[derive(Clone, Copy, Debug, PartialEq, Eq, Structural)]
pub enum PeriodicState {
    Armed,
    Running,
}

/// Why a periodic task refused a step.
#[derive(Clone, Copy, Debug, PartialEq, Eq, Structural)]
pub enum ScheduleError {
    /// The task was asked to start while it was at work.
    NotArmed,
    /// The task was asked to finish while it was waiting.
    NotRunning,
    /// The time given lies before the task's deadline.
    NotDue,
    /// The next deadline does not fit 64 bits.
    TimeOverflow,
}

/// A task that runs once per period. Times are in milliseconds. Every
/// deadline lies a whole number of periods after the first one, however
/// late the task ran in between. The period is never zero.
pub struct PeriodicTask {
    period: u32,
    deadline: u64,
    state: PeriodicState,
}

impl PeriodicTask {
    #[verifier::type_invariant]
    spec fn well_formed(self) -> bool {
        self.period > 0
    }

    /// The period.
    pub closed spec fn spec_period(&self) -> u32 {
        self.period
    }

    /// The time at which the task is due next or, while it runs, was due.
    pub closed spec fn spec_deadline(&self) -> u64 {
        self.deadline
    }

    /// Whether the task waits or runs.
    pub closed spec fn spec_state(&self) -> PeriodicState {
        self.state
    }

    /// Where the deadlines lie within the period.
    pub open spec fn phase(&self) -> int {
        self.deadline() as int % self.period() as int
    }

    /// A task that waits for its first deadline, one period after `now`;
    /// `None` for a period of zero or a deadline beyond 64 bits.
    pub fn new(period: u32, now: u64) -> (task: Option<Self>)
        ensures
            task is Some <==> period > 0 && now + period <= u64::MAX,
            task matches Some(t) ==> {
                &&& t.period() == period
                &&& t.deadline() == now + period
                &&& t.state() == PeriodicState::Armed
            },
    {
        if period == 0 || now > u64::MAX - (period as u64) {
            None
        } else {
            Some(PeriodicTask { period, deadline: now + period as u64, state: PeriodicState::Armed })
        }
    }

    /// The period. Never zero.
    #[verifier::when_used_as_spec(spec_period)]
    pub fn period(&self) -> (period: u32)
        ensures
            period == self.period(),
            period > 0,
    {
        proof {
            use_type_invariant(self);
        }
        self.period
    }

    /// The time at which the task is due next or, while it runs, was due.
    #[verifier::when_used_as_spec(spec_deadline)]
    pub fn deadline(&self) -> (deadline: u64)
        ensures
            deadline == self.deadline(),
    {
        self.deadline
    }

    /// Whether the task waits or runs.
    #[verifier::when_used_as_spec(spec_state)]
    pub fn state(&self) -> (state: PeriodicState)
        ensures
            state == self.state(),
    {
        self.state
    }

    /// Sets the task to work at `now`, which is at or after its deadline.
    pub fn start(&mut self, now: u64) -> (outcome: Result<(), ScheduleError>)
        ensures
            final(self).period() == old(self).period(),
            final(self).deadline() == old(self).deadline(),
            outcome == if old(self).state() != PeriodicState::Armed {
                Err::<(), ScheduleError>(ScheduleError::NotArmed)
            } else if now < old(self).deadline() {
                Err::<(), ScheduleError>(ScheduleError::NotDue)
            } else {
                Ok::<(), ScheduleError>(())
            },
            final(self).state() == if outcome is Ok {
                PeriodicState::Running
            } else {
                old(self).state()
            },
    {
        proof {
            use_type_invariant(&*self);
        }
        match self.state {
            PeriodicState::Running => Err(ScheduleError::NotArmed),
            PeriodicState::Armed => {
                if now < self.deadline {
                    Err(ScheduleError::NotDue)
                } else {
                    self.state = PeriodicState::Running;
                    Ok(())
                }
            },
        }
    }

    /// Ends the task's work at `now` and arms it again. The result is the
    /// delay from `now` to the next deadline: one period, less the time by
    /// which `now` has overrun the deadline. The next deadline lies a whole
    /// number of periods after the last. A refused step changes nothing.
    pub fn finish(&mut self, now: u64) -> (outcome: Result<u32, ScheduleError>)
        ensures
            final(self).period() == old(self).period(),
            outcome is Err ==> final(self).deadline() == old(self).deadline(),
            outcome is Err ==> final(self).state() == old(self).state(),
            old(self).state() != PeriodicState::Running ==> outcome == Err::<u32, ScheduleError>(
                ScheduleError::NotRunning,
            ),
            old(self).state() == PeriodicState::Running && now < old(self).deadline() ==> outcome
                == Err::<u32, ScheduleError>(ScheduleError::NotDue),
            old(self).state() == PeriodicState::Running && now >= old(self).deadline() ==> {
                let delay = old(self).period() - overrun(
                    old(self).period(),
                    now,
                    old(self).deadline(),
                );
                if now + delay > u64::MAX {
                    outcome == Err::<u32, ScheduleError>(ScheduleError::TimeOverflow)
                } else {
                    &&& outcome == Ok::<u32, ScheduleError>(delay as u32)
                    &&& 0 < delay <= old(self).period()
                    &&& final(self).state() == PeriodicState::Armed
                    &&& final(self).deadline() == now + delay
                    &&& final(self).phase() == old(self).phase()
                }
            },
    {
        proof {
            use_type_invariant(&*self);
        }
        match self.state {
            PeriodicState::Armed => Err(ScheduleError::NotRunning),
            PeriodicState::Running => {
                match next_delay(self.period, now, self.deadline) {
                    None => Err(ScheduleError::NotDue),
                    Some(delay) => {
                        if now > u64::MAX - (delay as u64) {
                            Err(ScheduleError::TimeOverflow)
                        } else {
                            proof {
                                vstd::arithmetic::div_mod::lemma_mod_equivalence(
                                    now + delay,
                                    self.deadline as int,
                                    self.period as int,
                                );
                            }
                            self.deadline = now + delay as u64;
                            self.state = PeriodicState::Armed;
                            Ok(delay)
                        }
                    },
                }
            },
        }
    }
}

} // verus!
