//! Start-up: the configuration that is compiled in, the long-lived state
//! built from the first readings of the hardware, and its hand-over to the
//! cells that all contexts share.

use vstd::prelude::*;

verus! {

use crate::angle::Angle;
use crate::arbiter::{Arbiter, SharedCell};
use crate::encoders::{Encoder, EncoderState, Phases};
use crate::scheduler::{
    is_ceiling,
    InterruptLine,
    ResourceId,
    Task,
    Trigger,
    LOG_PERIOD_MILLI_SEC,
};
use crate::timing::{ClockState, Instant, StopWatch, OPERATING_FREQUENCY_HZ};

/// The priority of the four edge handlers.
pub const EDGE_PRIORITY: u8 = 2;

/// The priority of the telemetry task.
pub const TELEMETRY_PRIORITY: u8 = 1;

/// The priority of the background loop.
pub const BACKGROUND_PRIORITY: u8 = 0;

/// What is fixed when the firmware is built.
#[derive(Clone, Copy, Debug, PartialEq, Eq, Structural)]
pub struct Configuration {
    pub tick_frequency_hz: u32,
    pub telemetry_period_milli_sec: u32,
    pub pendulum_counts_per_revolution: u32,
    pub pendulum_origin_offset_counts: i32,
    pub cart_counts_per_revolution: u32,
    pub cart_origin_offset_counts: i32,
}

impl Configuration {
    /// The configuration of the board: a 48 MHz core clock, telemetry
    /// every 100 ms, and two encoders of 2400 counts per revolution that
    /// start at the origin.
    pub fn board() -> (configuration: Self)
        ensures
            configuration == (Configuration {
                tick_frequency_hz: 48_000_000,
                telemetry_period_milli_sec: 100,
                pendulum_counts_per_revolution: 2400,
                pendulum_origin_offset_counts: 0,
                cart_counts_per_revolution: 2400,
                cart_origin_offset_counts: 0,
            }),
    {
        Configuration {
            tick_frequency_hz: OPERATING_FREQUENCY_HZ,
            telemetry_period_milli_sec: LOG_PERIOD_MILLI_SEC,
            pendulum_counts_per_revolution: 2400,
            pendulum_origin_offset_counts: 0,
            cart_counts_per_revolution: 2400,
            cart_origin_offset_counts: 0,
        }
    }
}

/// The duty at which the motor is driven, open loop: half of the most
/// that the driver takes.
pub fn motor_duty(max_duty: u16) -> (duty: u16)
    ensures
        duty == max_duty / 2,
{
    max_duty / 2
}

/// Whether `state` is that of an encoder which has just been set up: it
/// reads `phases`, stands still at `instant`, and has stepped no count on a
/// wheel of the given geometry.
pub open spec fn fresh_encoder(
    state: EncoderState,
    phases: Phases,
    counts_per_revolution: u32,
    origin_offset_counts: i32,
    instant: Instant,
) -> bool {
    &&& state.phases == phases
    &&& state.previous is None
    &&& state.current.instant == instant
    &&& state.current.angle.counts() == 0
    &&& state.current.angle.counts_per_revolution() == counts_per_revolution
    &&& state.current.angle.origin_offset_counts() == origin_offset_counts
}

/// The long-lived state of the firmware: the clock and the two encoders.
pub struct Hardware {
    pub pendulum_encoder: Encoder,
    pub cart_encoder: Encoder,
    pub stopwatch: StopWatch,
}

impl Hardware {
    /// Builds the clock and the encoders from the first readings of the
    /// hardware: the cycle counter and the phases of the two encoders.
    /// `None` where the configuration gives a wheel no counts.
    pub fn take(
        configuration: &Configuration,
        cycle_count: u32,
        pendulum_phases: Phases,
        cart_phases: Phases,
    ) -> (hardware: Option<Self>)
        ensures
            hardware is Some <==> configuration.pendulum_counts_per_revolution > 0
                && configuration.cart_counts_per_revolution > 0,
            hardware matches Some(h) ==> {
                &&& h.stopwatch@ == (ClockState { last_raw_count: cycle_count, epoch_count: 0 })
                &&& fresh_encoder(
                    h.pendulum_encoder@,
                    pendulum_phases,
                    configuration.pendulum_counts_per_revolution,
                    configuration.pendulum_origin_offset_counts,
                    Instant { ticks: cycle_count as u64 },
                )
                &&& fresh_encoder(
                    h.cart_encoder@,
                    cart_phases,
                    configuration.cart_counts_per_revolution,
                    configuration.cart_origin_offset_counts,
                    Instant { ticks: cycle_count as u64 },
                )
            },
    {
        let stopwatch = StopWatch::new(cycle_count);
        let instant = Instant { ticks: cycle_count as u64 };
        let pendulum_angle = Angle::new(
            configuration.pendulum_counts_per_revolution,
            configuration.pendulum_origin_offset_counts,
        );
        let cart_angle = Angle::new(
            configuration.cart_counts_per_revolution,
            configuration.cart_origin_offset_counts,
        );
        match (pendulum_angle, cart_angle) {
            (Some(pendulum_angle), Some(cart_angle)) => Some(
                Hardware {
                    pendulum_encoder: Encoder::new(pendulum_phases, pendulum_angle, instant),
                    cart_encoder: Encoder::new(cart_phases, cart_angle, instant),
                    stopwatch,
                },
            ),
            _ => None,
        }
    }
}

/// The priority of entry `i` of the task table.
pub open spec fn table_priority(i: int) -> u8 {
    if i < 4 {
        EDGE_PRIORITY
    } else if i == 4 {
        TELEMETRY_PRIORITY
    } else {
        BACKGROUND_PRIORITY
    }
}

/// What sets entry `i` of the task table going.
pub open spec fn table_trigger(i: int) -> Trigger {
    if i == 0 {
        Trigger::Edge(InterruptLine::Exti0)
    } else if i == 1 {
        Trigger::Edge(InterruptLine::Exti1)
    } else if i == 2 {
        Trigger::Edge(InterruptLine::Exti2Tsc)
    } else if i == 3 {
        Trigger::Edge(InterruptLine::Exti3)
    } else if i == 4 {
        Trigger::Periodic(LOG_PERIOD_MILLI_SEC)
    } else {
        Trigger::Background
    }
}

/// The resources that entry `i` of the task table claims.
pub open spec fn table_claims(i: int) -> Seq<ResourceId> {
    if i == 0 || i == 2 {
        seq![ResourceId::StopWatch, ResourceId::PendulumEncoder]
    } else if i == 1 || i == 3 {
        seq![ResourceId::StopWatch, ResourceId::CartEncoder]
    } else if i == 4 {
        seq![ResourceId::StopWatch, ResourceId::CartEncoder, ResourceId::PendulumEncoder]
    } else {
        seq![ResourceId::StopWatch, ResourceId::CartEncoder, ResourceId::MotorDriver]
    }
}

/// Whether `tasks` is the firmware's task table: the four edge handlers, of
/// which the even lines serve the pendulum and the odd lines the cart, then
/// the telemetry task, then the background loop.
pub open spec fn is_task_table(tasks: Seq<Task>) -> bool {
    &&& tasks.len() == 6
    &&& forall|i: int|
        0 <= i < 6 ==> {
            &&& (#[trigger] tasks[i]).priority == table_priority(i)
            &&& tasks[i].trigger == table_trigger(i)
            &&& tasks[i].claims@ == table_claims(i)
        }
}

/// The ceiling that the firmware's task table gives `resource`: that of
/// the edge handlers for the clock and the encoders, which they use, and
/// that of the background loop for the motor driver, which it alone uses.
pub open spec fn table_ceiling(resource: ResourceId) -> u8 {
    if resource == ResourceId::MotorDriver {
        BACKGROUND_PRIORITY
    } else {
        EDGE_PRIORITY
    }
}

fn edge_task(line: InterruptLine, encoder: ResourceId) -> (task: Task)
    ensures
        task.priority == EDGE_PRIORITY,
        task.trigger == Trigger::Edge(line),
        task.claims@ == seq![ResourceId::StopWatch, encoder],
{
    let mut claims: Vec<ResourceId> = Vec::new();
    claims.push(ResourceId::StopWatch);
    claims.push(encoder);
    assert(claims@ =~= seq![ResourceId::StopWatch, encoder]);
    Task { priority: EDGE_PRIORITY, claims, trigger: Trigger::Edge(line) }
}

/// The firmware's task table.
pub fn task_table() -> (tasks: Vec<Task>)
    ensures
        is_task_table(tasks@),
{
    let mut tasks: Vec<Task> = Vec::new();
    tasks.push(edge_task(InterruptLine::Exti0, ResourceId::PendulumEncoder));
    tasks.push(edge_task(InterruptLine::Exti1, ResourceId::CartEncoder));
    tasks.push(edge_task(InterruptLine::Exti2Tsc, ResourceId::PendulumEncoder));
    tasks.push(edge_task(InterruptLine::Exti3, ResourceId::CartEncoder));
    let mut telemetry: Vec<ResourceId> = Vec::new();
    telemetry.push(ResourceId::StopWatch);
    telemetry.push(ResourceId::CartEncoder);
    telemetry.push(ResourceId::PendulumEncoder);
    assert(telemetry@ =~= table_claims(4));
    tasks.push(
        Task {
            priority: TELEMETRY_PRIORITY,
            claims: telemetry,
            trigger: Trigger::Periodic(LOG_PERIOD_MILLI_SEC),
        },
    );
    let mut background: Vec<ResourceId> = Vec::new();
    background.push(ResourceId::StopWatch);
    background.push(ResourceId::CartEncoder);
    background.push(ResourceId::MotorDriver);
    assert(background@ =~= table_claims(5));
    tasks.push(
        Task { priority: BACKGROUND_PRIORITY, claims: background, trigger: Trigger::Background },
    );
    tasks
}

/// Under the firmware's task table each resource has the ceiling that
/// `table_ceiling` names.
pub proof fn lemma_table_ceilings(tasks: Seq<Task>, resource: ResourceId, ceiling: u8)
    requires
        is_task_table(tasks),
        is_ceiling(tasks, resource, ceiling),
    ensures
        ceiling == table_ceiling(resource),
{
    assert(table_claims(0)[0] == ResourceId::StopWatch);
    assert(table_claims(0)[1] == ResourceId::PendulumEncoder);
    assert(table_claims(1)[1] == ResourceId::CartEncoder);
    assert(table_claims(5)[2] == ResourceId::MotorDriver);
    assert(tasks[0].claims(ResourceId::StopWatch));
    assert(tasks[0].claims(ResourceId::PendulumEncoder));
    assert(tasks[1].claims(ResourceId::CartEncoder));
    assert(tasks[5].claims(ResourceId::MotorDriver));
    if ceiling != 0 {
        let i = choose|i: int|
            0 <= i < tasks.len() && (#[trigger] tasks[i]).claims(resource) && tasks[i].priority
                == ceiling;
        if resource == ResourceId::MotorDriver {
            assert(i == 5);
        }
    }
}

/// The state that all contexts share, each part in its cell, and the
/// arbiter that hands the cells out.
pub struct Shared {
    pub arbiter: Arbiter,
    pub stopwatch: SharedCell<StopWatch>,
    pub cart_encoder: SharedCell<Encoder>,
    pub pendulum_encoder: SharedCell<Encoder>,
}

/// What the shared cells hold.
pub struct Snapshot {
    pub clock: ClockState,
    pub cart: EncoderState,
    pub pendulum: EncoderState,
}

impl Snapshot {
    /// The state of the encoder that `resource` names: the pendulum's for
    /// the pendulum, the cart's for anything else.
    pub open spec fn encoder(&self, resource: ResourceId) -> EncoderState {
        if resource == ResourceId::PendulumEncoder {
            self.pendulum
        } else {
            self.cart
        }
    }
}

impl View for Shared {
    type V = Snapshot;

    open spec fn view(&self) -> Snapshot {
        Snapshot {
            clock: self.stopwatch.content()->0@,
            cart: self.cart_encoder.content()->0@,
            pendulum: self.pendulum_encoder.content()->0@,
        }
    }
}

impl Shared {
    /// The invariant: the arbiter's is kept, every cell stands for its own
    /// resource, and every cell is filled.
    pub open spec fn wf(&self) -> bool {
        &&& self.arbiter.wf()
        &&& self.stopwatch.resource() == ResourceId::StopWatch
        &&& self.cart_encoder.resource() == ResourceId::CartEncoder
        &&& self.pendulum_encoder.resource() == ResourceId::PendulumEncoder
        &&& self.stopwatch.content() is Some
        &&& self.cart_encoder.content() is Some
        &&& self.pendulum_encoder.content() is Some
    }
}

/// Hands the long-lived state over to the cells that all contexts share,
/// under an arbiter for the firmware's task table. Nothing runs yet but
/// the background, and nothing is held.
pub fn setup(hardware: Hardware) -> (shared: Shared)
    ensures
        shared.wf(),
        shared.arbiter.frames().len() == 0,
        forall|resource: ResourceId|
            #[trigger] shared.arbiter.ceiling(resource) == table_ceiling(resource),
        shared@ == (Snapshot {
            clock: hardware.stopwatch@,
            cart: hardware.cart_encoder@,
            pendulum: hardware.pendulum_encoder@,
        }),
{
    let tasks = task_table();
    let arbiter = Arbiter::new(&tasks);
    assert forall|resource: ResourceId| #[trigger]
        arbiter.ceiling(resource) == table_ceiling(resource) by {
        lemma_table_ceilings(tasks@, resource, arbiter.ceiling(resource));
    }
    Shared {
        arbiter,
        stopwatch: SharedCell::new(ResourceId::StopWatch, hardware.stopwatch),
        cart_encoder: SharedCell::new(ResourceId::CartEncoder, hardware.cart_encoder),
        pendulum_encoder: SharedCell::new(ResourceId::PendulumEncoder, hardware.pendulum_encoder),
    }
}

} // verus!
