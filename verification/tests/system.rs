use cart_pendulum::arbiter::ArbiterError;
use cart_pendulum::background::cart_velocity;
use cart_pendulum::encoders::{Direction, EncoderError, Phases};
use cart_pendulum::fault::Fault;
use cart_pendulum::init::{setup, Configuration, Hardware, Shared};
use cart_pendulum::interrupts::{binding, service, Acknowledge, Binding};
use cart_pendulum::scheduler::{
    InterruptLine, PeriodicState, PeriodicTask, ResourceId, ScheduleError,
};
use cart_pendulum::telemetry::{log_data, Record};
use cart_pendulum::timing::{ClockError, Instant, StopWatch};
use cart_pendulum::velocity::{DegreesPerSecond, VelocityError, VelocityEstimator};

const LOW: Phases = Phases { a: false, b: false };
const A_HIGH: Phases = Phases { a: true, b: false };
const BOTH_HIGH: Phases = Phases { a: true, b: true };
const B_HIGH: Phases = Phases { a: false, b: true };
const PIN_A: Acknowledge = Acknowledge { pin_a: true, pin_b: false };
const PIN_B: Acknowledge = Acknowledge { pin_a: false, pin_b: true };
const CYCLES: VelocityEstimator =
    VelocityEstimator { ticks_per_second: 48_000_000, max_tick_value: 0xFFFF_FFFF };

fn started(cycle_count: u32) -> Shared {
    setup(Hardware::take(&Configuration::board(), cycle_count, LOW, LOW).unwrap())
}

fn cart_sample(shared: &mut Shared) -> (i32, u64, Option<i32>) {
    shared
        .arbiter
        .with_lock(&mut shared.cart_encoder, |encoder| {
            let seen = (
                encoder.angle().counts(),
                encoder.last_sample().instant.ticks,
                encoder.previous_sample().map(|sample| sample.angle.counts()),
            );
            (encoder, seen)
        })
        .unwrap()
}

fn pendulum_sample(shared: &mut Shared) -> (i32, u64, Option<i32>) {
    shared
        .arbiter
        .with_lock(&mut shared.pendulum_encoder, |encoder| {
            let seen = (
                encoder.angle().counts(),
                encoder.last_sample().instant.ticks,
                encoder.previous_sample().map(|sample| sample.angle.counts()),
            );
            (encoder, seen)
        })
        .unwrap()
}

fn clock_cycles(shared: &mut Shared, cycle_count: u32) -> Result<u64, ClockError> {
    shared
        .arbiter
        .with_lock(&mut shared.stopwatch, |mut clock: StopWatch| {
            let cycles = clock.cycles_since_epoch(cycle_count);
            (clock, cycles)
        })
        .unwrap()
}

#[test]
fn board_configuration_has_the_compiled_in_values() {
    let configuration = Configuration::board();
    assert_eq!(configuration.tick_frequency_hz, 48_000_000);
    assert_eq!(configuration.telemetry_period_milli_sec, 100);
    assert_eq!(configuration.pendulum_counts_per_revolution, 2400);
    assert_eq!(configuration.pendulum_origin_offset_counts, 0);
    assert_eq!(configuration.cart_counts_per_revolution, 2400);
    assert_eq!(configuration.cart_origin_offset_counts, 0);
}

#[test]
fn hardware_is_built_from_the_first_readings() {
    let configuration = Configuration {
        pendulum_counts_per_revolution: 1200,
        pendulum_origin_offset_counts: 600,
        cart_origin_offset_counts: -3,
        ..Configuration::board()
    };
    let mut hardware = Hardware::take(&configuration, 77, A_HIGH, B_HIGH).unwrap();
    assert_eq!(hardware.stopwatch.cycles_since_epoch(78), Ok(78));
    let pendulum = &hardware.pendulum_encoder;
    assert_eq!(pendulum.phases(), A_HIGH);
    assert_eq!(pendulum.angle().counts(), 0);
    assert_eq!(pendulum.angle().counts_per_revolution(), 1200);
    assert_eq!(pendulum.angle().origin_offset_counts(), 600);
    assert_eq!(pendulum.angle().degrees(), 180);
    assert_eq!(pendulum.last_sample().instant, Instant { ticks: 77 });
    assert_eq!(pendulum.previous_sample(), None);
    let cart = &hardware.cart_encoder;
    assert_eq!(cart.phases(), B_HIGH);
    assert_eq!(cart.angle().counts_per_revolution(), 2400);
    assert_eq!(cart.angle().origin_offset_counts(), -3);
    assert_eq!(cart.last_sample().instant, Instant { ticks: 77 });
    assert_eq!(cart.previous_sample(), None);
}

#[test]
fn hardware_needs_wheels_with_counts() {
    let no_pendulum =
        Configuration { pendulum_counts_per_revolution: 0, ..Configuration::board() };
    let no_cart = Configuration { cart_counts_per_revolution: 0, ..Configuration::board() };
    assert!(Hardware::take(&no_pendulum, 0, LOW, LOW).is_none());
    assert!(Hardware::take(&no_cart, 0, LOW, LOW).is_none());
}

#[test]
fn setup_fills_every_cell_and_leaves_the_background_running() {
    let mut shared = started(5);
    assert!(shared.arbiter.is_idle());
    assert_eq!(shared.stopwatch.resource(), ResourceId::StopWatch);
    assert_eq!(shared.cart_encoder.resource(), ResourceId::CartEncoder);
    assert_eq!(shared.pendulum_encoder.resource(), ResourceId::PendulumEncoder);
    assert!(shared.stopwatch.is_initialized());
    assert!(shared.cart_encoder.is_initialized());
    assert!(shared.pendulum_encoder.is_initialized());
    assert_eq!(shared.arbiter.ceiling(ResourceId::StopWatch), 2);
    assert_eq!(shared.arbiter.ceiling(ResourceId::CartEncoder), 2);
    assert_eq!(shared.arbiter.ceiling(ResourceId::PendulumEncoder), 2);
    assert_eq!(shared.arbiter.ceiling(ResourceId::MotorDriver), 0);
    assert_eq!(cart_sample(&mut shared), (0, 5, None));
    assert_eq!(pendulum_sample(&mut shared), (0, 5, None));
    assert_eq!(clock_cycles(&mut shared, 6), Ok(6));
}

#[test]
fn each_line_is_bound_to_one_pin_of_one_encoder() {
    assert_eq!(
        binding(InterruptLine::Exti0),
        Binding { encoder: ResourceId::PendulumEncoder, acknowledge: PIN_A }
    );
    assert_eq!(
        binding(InterruptLine::Exti1),
        Binding { encoder: ResourceId::CartEncoder, acknowledge: PIN_A }
    );
    assert_eq!(
        binding(InterruptLine::Exti2Tsc),
        Binding { encoder: ResourceId::PendulumEncoder, acknowledge: PIN_B }
    );
    assert_eq!(
        binding(InterruptLine::Exti3),
        Binding { encoder: ResourceId::CartEncoder, acknowledge: PIN_B }
    );
}

#[test]
fn handler_stamps_the_step_with_the_clock_and_clears_its_own_flag() {
    let mut shared = started(0);
    assert_eq!(
        service(&mut shared, InterruptLine::Exti1, 1_000, A_HIGH),
        Ok((PIN_A, Direction::Forward))
    );
    assert_eq!(cart_sample(&mut shared), (1, 1_000, Some(0)));
    assert_eq!(pendulum_sample(&mut shared), (0, 0, None));
    assert_eq!(
        service(&mut shared, InterruptLine::Exti3, 2_000, BOTH_HIGH),
        Ok((PIN_B, Direction::Forward))
    );
    assert_eq!(cart_sample(&mut shared), (2, 2_000, Some(1)));
    assert_eq!(
        service(&mut shared, InterruptLine::Exti2Tsc, 3_000, B_HIGH),
        Ok((PIN_B, Direction::Reverse))
    );
    assert_eq!(pendulum_sample(&mut shared), (-1, 3_000, Some(0)));
    assert_eq!(
        service(&mut shared, InterruptLine::Exti0, 10, A_HIGH),
        Ok((PIN_A, Direction::Stationary))
    );
    assert_eq!(pendulum_sample(&mut shared), (-1, 3_000, Some(0)));
    assert_eq!(cart_sample(&mut shared), (2, 2_000, Some(1)));
    assert_eq!(clock_cycles(&mut shared, 11), Ok(0x1_0000_000B));
    assert!(shared.arbiter.is_idle());
}

#[test]
fn handler_reports_a_reading_that_the_clock_refuses() {
    let mut shared = started(500);
    assert_eq!(
        service(&mut shared, InterruptLine::Exti1, 500, A_HIGH),
        Err(Fault::Clock(ClockError::RepeatedReading))
    );
    assert_eq!(cart_sample(&mut shared), (0, 500, None));
    assert!(shared.arbiter.is_idle());
    assert_eq!(
        service(&mut shared, InterruptLine::Exti1, 501, A_HIGH),
        Ok((PIN_A, Direction::Forward))
    );
}

#[test]
fn handler_reports_a_step_that_the_encoder_refuses() {
    let mut shared = started(0);
    let mut top = cart_pendulum::angle::Angle::new(2400, 0).unwrap();
    while let Some(next) = top.stepped(127) {
        top = next;
    }
    while let Some(next) = top.stepped(1) {
        top = next;
    }
    let full = cart_pendulum::encoders::Encoder::new(LOW, top, Instant { ticks: 0 });
    assert!(shared.cart_encoder.install(full).is_some());
    assert_eq!(
        service(&mut shared, InterruptLine::Exti1, 9, A_HIGH),
        Err(Fault::Encoder(EncoderError::PositionOverflow))
    );
    assert_eq!(cart_sample(&mut shared), (i32::MAX, 0, None));
    assert_eq!(clock_cycles(&mut shared, 10), Ok(10));
    assert_eq!(
        service(&mut shared, InterruptLine::Exti3, 20, B_HIGH),
        Ok((PIN_B, Direction::Reverse))
    );
    assert_eq!(cart_sample(&mut shared), (i32::MAX - 1, 20, Some(i32::MAX)));
}

#[test]
fn handler_stays_pending_while_a_task_holds_what_it_uses() {
    let mut shared = started(0);
    assert!(shared.arbiter.preempt(1));
    assert_eq!(shared.arbiter.lock(ResourceId::PendulumEncoder), Ok(()));
    assert_eq!(service(&mut shared, InterruptLine::Exti1, 7, A_HIGH), Err(Fault::Pending));
    assert_eq!(service(&mut shared, InterruptLine::Exti0, 7, A_HIGH), Err(Fault::Pending));
    assert_eq!(shared.arbiter.priority(), 2);
    assert_eq!(shared.arbiter.unlock(ResourceId::PendulumEncoder), Ok(()));
    assert_eq!(
        service(&mut shared, InterruptLine::Exti0, 7, A_HIGH),
        Ok((PIN_A, Direction::Forward))
    );
    assert_eq!(pendulum_sample(&mut shared), (1, 7, Some(0)));
    assert_eq!(shared.arbiter.priority(), 1);
    assert_eq!(shared.arbiter.complete(), Ok(()));
}

#[test]
fn handler_preempts_a_task_that_holds_nothing() {
    let mut shared = started(0);
    assert!(shared.arbiter.preempt(1));
    assert_eq!(
        service(&mut shared, InterruptLine::Exti3, 7, B_HIGH),
        Ok((PIN_B, Direction::Reverse))
    );
    assert_eq!(shared.arbiter.priority(), 1);
    assert_eq!(shared.arbiter.base_priority(), 1);
}

#[test]
fn telemetry_reports_time_and_angles_and_the_delay_to_its_next_run() {
    let mut shared = started(0);
    let mut task = PeriodicTask::new(100, 0).unwrap();
    for (line, cycle_count, phases) in [
        (InterruptLine::Exti1, 1_000, A_HIGH),
        (InterruptLine::Exti3, 2_000, BOTH_HIGH),
        (InterruptLine::Exti2Tsc, 3_000, B_HIGH),
    ] {
        service(&mut shared, line, cycle_count, phases).unwrap();
    }
    assert_eq!(
        log_data(&mut shared, &mut task, 48_000 * 130),
        Ok((
            Record {
                timestamp_milli_sec: 130,
                cart_angle_millidegrees: 300,
                pendulum_angle_millidegrees: -150,
            },
            70
        ))
    );
    assert_eq!(task.state(), PeriodicState::Armed);
    assert_eq!(task.deadline(), 200);
    assert!(shared.arbiter.is_idle());
    assert_eq!(cart_sample(&mut shared), (2, 2_000, Some(1)));
    assert_eq!(
        log_data(&mut shared, &mut task, 48_000 * 200),
        Ok((
            Record {
                timestamp_milli_sec: 200,
                cart_angle_millidegrees: 300,
                pendulum_angle_millidegrees: -150,
            },
            100
        ))
    );
    assert_eq!(task.deadline(), 300);
}

#[test]
fn telemetry_keeps_its_grid_across_a_wrap_of_the_counter() {
    let start: u32 = u32::MAX - 48_000 * 250;
    let started_at = start as u64 / 48_000;
    let mut shared = started(start);
    let mut task = PeriodicTask::new(100, started_at).unwrap();
    let mut last = started_at;
    for run in 0..40u64 {
        let late = (run * 37) % 90;
        let due = task.deadline();
        let truth = (due + late) * 48_000 + run;
        let shown = (truth % 0x1_0000_0000) as u32;
        let (record, delay) = log_data(&mut shared, &mut task, shown).unwrap();
        assert_eq!(record.timestamp_milli_sec, due + late);
        assert!(record.timestamp_milli_sec > last);
        assert_eq!(delay as u64, 100 - late);
        assert_eq!(task.deadline(), due + 100);
        assert_eq!(task.deadline() % 100, (started_at + 100) % 100);
        last = record.timestamp_milli_sec;
    }
    assert!(last * 48_000 > u32::MAX as u64);
}

#[test]
fn telemetry_before_its_deadline_is_refused() {
    let mut shared = started(0);
    let mut task = PeriodicTask::new(100, 0).unwrap();
    assert_eq!(
        log_data(&mut shared, &mut task, 48_000 * 99),
        Err(Fault::Schedule(ScheduleError::NotDue))
    );
    assert_eq!(task.state(), PeriodicState::Armed);
    assert_eq!(task.deadline(), 100);
    assert_eq!(clock_cycles(&mut shared, 48_000 * 99 + 1), Ok(48_000 * 99 + 1));
    assert!(shared.arbiter.is_idle());
}

#[test]
fn telemetry_of_a_task_at_work_is_refused() {
    let mut shared = started(0);
    let mut task = PeriodicTask::new(100, 0).unwrap();
    assert_eq!(task.start(100), Ok(()));
    assert_eq!(
        log_data(&mut shared, &mut task, 48_000 * 100),
        Err(Fault::Schedule(ScheduleError::NotArmed))
    );
    assert_eq!(task.state(), PeriodicState::Running);
}

#[test]
fn telemetry_reports_a_reading_that_the_clock_refuses() {
    let mut shared = started(48_000 * 100);
    let mut task = PeriodicTask::new(100, 0).unwrap();
    assert_eq!(
        log_data(&mut shared, &mut task, 48_000 * 100),
        Err(Fault::Clock(ClockError::RepeatedReading))
    );
    assert_eq!(task.deadline(), 100);
    assert!(shared.arbiter.is_idle());
}

#[test]
fn telemetry_stays_pending_below_the_priority_of_the_processor() {
    let mut shared = started(0);
    let mut task = PeriodicTask::new(100, 0).unwrap();
    assert_eq!(shared.arbiter.lock(ResourceId::CartEncoder), Ok(()));
    assert_eq!(log_data(&mut shared, &mut task, 48_000 * 100), Err(Fault::Pending));
    assert_eq!(shared.arbiter.unlock(ResourceId::CartEncoder), Ok(()));
    assert!(shared.arbiter.preempt(1));
    assert_eq!(log_data(&mut shared, &mut task, 48_000 * 100), Err(Fault::Pending));
    assert_eq!(shared.arbiter.complete(), Ok(()));
    assert_eq!(clock_cycles(&mut shared, 1), Ok(1));
    assert_eq!(log_data(&mut shared, &mut task, 48_000 * 100).unwrap().1, 100);
}

#[test]
fn task_that_the_table_gives_no_claim_is_refused_the_resource() {
    let mut shared = started(0);
    assert!(shared.arbiter.preempt(1));
    assert_eq!(
        shared.arbiter.with_lock(&mut shared.cart_encoder, |encoder| (encoder, ())),
        Ok(())
    );
    assert_eq!(
        shared.arbiter.lock(ResourceId::MotorDriver),
        Err(ArbiterError::CeilingViolation)
    );
}

#[test]
fn background_gives_the_velocity_of_the_cart() {
    let mut shared = started(0);
    assert_eq!(cart_velocity(&mut shared, &CYCLES), Ok(None));
    service(&mut shared, InterruptLine::Exti1, 24_000_000, A_HIGH).unwrap();
    assert_eq!(
        cart_velocity(&mut shared, &CYCLES),
        Ok(Some(DegreesPerSecond { millidegrees: 300 }))
    );
    service(&mut shared, InterruptLine::Exti1, 24_000_048, LOW).unwrap();
    assert_eq!(
        cart_velocity(&mut shared, &CYCLES),
        Ok(Some(DegreesPerSecond { millidegrees: -150_000_000 }))
    );
    assert_eq!(cart_sample(&mut shared), (0, 24_000_048, Some(1)));
    assert!(shared.arbiter.is_idle());
}

#[test]
fn background_is_put_off_while_a_task_runs() {
    let mut shared = started(0);
    service(&mut shared, InterruptLine::Exti1, 24_000_000, A_HIGH).unwrap();
    assert!(shared.arbiter.preempt(1));
    assert_eq!(cart_velocity(&mut shared, &CYCLES), Err(Fault::Pending));
    assert_eq!(shared.arbiter.complete(), Ok(()));
    assert_eq!(shared.arbiter.lock(ResourceId::StopWatch), Ok(()));
    assert_eq!(cart_velocity(&mut shared, &CYCLES), Err(Fault::Pending));
}

#[test]
fn background_reports_why_there_is_no_velocity() {
    let mut shared = started(0);
    let start = cart_pendulum::angle::Angle::new(2400, 0).unwrap();
    let mut encoder = cart_pendulum::encoders::Encoder::new(LOW, start, Instant { ticks: 50 });
    encoder.update(A_HIGH, Instant { ticks: 50 }).unwrap();
    shared.cart_encoder.install(encoder);
    assert_eq!(
        cart_velocity(&mut shared, &CYCLES),
        Err(Fault::Velocity(VelocityError::NoTimeElapsed))
    );
    let mut encoder =
        cart_pendulum::encoders::Encoder::new(LOW, start, Instant { ticks: 0x1_0000_0000 });
    encoder.update(A_HIGH, Instant { ticks: 7 }).unwrap();
    shared.cart_encoder.install(encoder);
    assert_eq!(
        cart_velocity(&mut shared, &CYCLES),
        Err(Fault::Velocity(VelocityError::OverflowWouldOccur))
    );
    let mut encoder =
        cart_pendulum::encoders::Encoder::new(LOW, start, Instant { ticks: 0xFFFF_FFFF - 47 });
    encoder.update(A_HIGH, Instant { ticks: 1 }).unwrap();
    shared.cart_encoder.install(encoder);
    assert_eq!(
        cart_velocity(&mut shared, &CYCLES),
        Ok(Some(DegreesPerSecond { millidegrees: 150_000_000 }))
    );
}
