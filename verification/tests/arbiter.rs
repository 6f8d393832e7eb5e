use cart_pendulum::angle::Angle;
use cart_pendulum::arbiter::{Arbiter, ArbiterError, SharedCell};
use cart_pendulum::encoders::{Direction, Encoder, Phases, Sample};
use cart_pendulum::init::task_table;
use cart_pendulum::scheduler::{InterruptLine, ResourceId, Task, Trigger};
use cart_pendulum::timing::Instant;

fn table(entries: &[(u8, &[ResourceId])]) -> Vec<Task> {
    entries
        .iter()
        .map(|(priority, claims)| Task {
            priority: *priority,
            claims: claims.to_vec(),
            trigger: Trigger::Edge(InterruptLine::Exti0),
        })
        .collect()
}

#[test]
fn arbiter_starts_idle_with_the_ceilings_of_the_table() {
    let arbiter = Arbiter::new(&task_table());
    assert!(arbiter.is_idle());
    assert_eq!(arbiter.priority(), 0);
    assert_eq!(arbiter.base_priority(), 0);
    assert_eq!(arbiter.ceiling(ResourceId::StopWatch), 2);
    assert_eq!(arbiter.ceiling(ResourceId::CartEncoder), 2);
    assert_eq!(arbiter.ceiling(ResourceId::PendulumEncoder), 2);
    assert_eq!(arbiter.ceiling(ResourceId::MotorDriver), 0);
    for resource in [
        ResourceId::StopWatch,
        ResourceId::CartEncoder,
        ResourceId::PendulumEncoder,
        ResourceId::MotorDriver,
    ] {
        assert!(!arbiter.is_held(resource));
    }
}

#[test]
fn lock_raises_the_processor_to_the_ceiling_and_unlock_restores_it() {
    let mut arbiter = Arbiter::new(&task_table());
    assert_eq!(arbiter.lock(ResourceId::CartEncoder), Ok(()));
    assert!(arbiter.is_held(ResourceId::CartEncoder));
    assert!(!arbiter.is_held(ResourceId::PendulumEncoder));
    assert_eq!(arbiter.priority(), 2);
    assert_eq!(arbiter.base_priority(), 0);
    assert!(!arbiter.is_idle());
    assert_eq!(arbiter.unlock(ResourceId::CartEncoder), Ok(()));
    assert!(!arbiter.is_held(ResourceId::CartEncoder));
    assert_eq!(arbiter.priority(), 0);
    assert!(arbiter.is_idle());
}

#[test]
fn lock_below_the_present_priority_leaves_it_where_it_is() {
    let tasks = table(&[
        (5, &[ResourceId::StopWatch]),
        (2, &[ResourceId::CartEncoder]),
        (1, &[ResourceId::StopWatch, ResourceId::CartEncoder]),
    ]);
    let mut arbiter = Arbiter::new(&tasks);
    assert!(arbiter.preempt(1));
    assert_eq!(arbiter.lock(ResourceId::StopWatch), Ok(()));
    assert_eq!(arbiter.priority(), 5);
    assert_eq!(arbiter.lock(ResourceId::CartEncoder), Ok(()));
    assert_eq!(arbiter.priority(), 5);
    assert_eq!(arbiter.base_priority(), 1);
    assert_eq!(arbiter.unlock(ResourceId::CartEncoder), Ok(()));
    assert_eq!(arbiter.priority(), 5);
    assert_eq!(arbiter.unlock(ResourceId::StopWatch), Ok(()));
    assert_eq!(arbiter.priority(), 1);
    assert_eq!(arbiter.complete(), Ok(()));
    assert!(arbiter.is_idle());
}

#[test]
fn task_preempts_only_from_above_the_present_priority() {
    let mut arbiter = Arbiter::new(&task_table());
    assert!(!arbiter.preempt(0));
    assert!(arbiter.is_idle());
    assert!(arbiter.preempt(1));
    assert_eq!(arbiter.priority(), 1);
    assert_eq!(arbiter.base_priority(), 1);
    assert!(!arbiter.preempt(1));
    assert!(arbiter.preempt(2));
    assert_eq!(arbiter.base_priority(), 2);
    assert!(!arbiter.preempt(2));
    assert_eq!(arbiter.complete(), Ok(()));
    assert_eq!(arbiter.priority(), 1);
    assert_eq!(arbiter.complete(), Ok(()));
    assert_eq!(arbiter.priority(), 0);
}

#[test]
fn holder_keeps_out_every_task_that_uses_the_resource() {
    let tasks = task_table();
    let mut arbiter = Arbiter::new(&tasks);
    assert!(arbiter.preempt(1));
    assert_eq!(arbiter.lock(ResourceId::CartEncoder), Ok(()));
    for task in tasks.iter().filter(|task| task.claims(ResourceId::CartEncoder)) {
        assert!(!arbiter.preempt(task.priority));
    }
    assert!(arbiter.is_held(ResourceId::CartEncoder));
    assert_eq!(arbiter.unlock(ResourceId::CartEncoder), Ok(()));
    assert!(arbiter.preempt(2));
    assert_eq!(arbiter.lock(ResourceId::CartEncoder), Ok(()));
}

#[test]
fn task_above_the_ceiling_still_preempts_a_holder() {
    let tasks = table(&[
        (1, &[ResourceId::CartEncoder]),
        (2, &[ResourceId::CartEncoder]),
        (3, &[ResourceId::PendulumEncoder]),
    ]);
    let mut arbiter = Arbiter::new(&tasks);
    assert!(arbiter.preempt(1));
    assert_eq!(arbiter.lock(ResourceId::CartEncoder), Ok(()));
    assert_eq!(arbiter.priority(), 2);
    assert!(!arbiter.preempt(2));
    assert!(arbiter.preempt(3));
    assert_eq!(arbiter.lock(ResourceId::PendulumEncoder), Ok(()));
    assert_eq!(arbiter.lock(ResourceId::CartEncoder), Err(ArbiterError::CeilingViolation));
    assert_eq!(arbiter.unlock(ResourceId::PendulumEncoder), Ok(()));
    assert_eq!(arbiter.complete(), Ok(()));
    assert!(arbiter.is_held(ResourceId::CartEncoder));
    assert_eq!(arbiter.priority(), 2);
}

#[test]
fn task_above_the_ceiling_is_refused_the_resource() {
    let mut arbiter = Arbiter::new(&task_table());
    assert!(arbiter.preempt(1));
    assert_eq!(arbiter.lock(ResourceId::MotorDriver), Err(ArbiterError::CeilingViolation));
    assert!(!arbiter.is_held(ResourceId::MotorDriver));
    assert_eq!(arbiter.priority(), 1);
    assert_eq!(arbiter.complete(), Ok(()));
    assert_eq!(arbiter.lock(ResourceId::MotorDriver), Ok(()));
    assert_eq!(arbiter.priority(), 0);
}

#[test]
fn resource_is_not_taken_twice() {
    let mut arbiter = Arbiter::new(&task_table());
    assert_eq!(arbiter.lock(ResourceId::StopWatch), Ok(()));
    assert_eq!(arbiter.lock(ResourceId::StopWatch), Err(ArbiterError::AlreadyHeld));
    assert_eq!(arbiter.lock(ResourceId::CartEncoder), Ok(()));
    assert_eq!(arbiter.lock(ResourceId::StopWatch), Err(ArbiterError::AlreadyHeld));
}

#[test]
fn resources_are_given_back_innermost_first() {
    let mut arbiter = Arbiter::new(&task_table());
    assert_eq!(arbiter.unlock(ResourceId::StopWatch), Err(ArbiterError::NotInnermost));
    assert_eq!(arbiter.lock(ResourceId::StopWatch), Ok(()));
    assert_eq!(arbiter.lock(ResourceId::CartEncoder), Ok(()));
    assert_eq!(arbiter.unlock(ResourceId::StopWatch), Err(ArbiterError::NotInnermost));
    assert!(arbiter.is_held(ResourceId::StopWatch));
    assert_eq!(arbiter.unlock(ResourceId::CartEncoder), Ok(()));
    assert_eq!(arbiter.unlock(ResourceId::StopWatch), Ok(()));
    assert!(arbiter.preempt(1));
    assert_eq!(arbiter.unlock(ResourceId::StopWatch), Err(ArbiterError::NotInnermost));
}

#[test]
fn context_ends_only_when_it_holds_nothing() {
    let mut arbiter = Arbiter::new(&task_table());
    assert_eq!(arbiter.complete(), Err(ArbiterError::NothingRunning));
    assert!(arbiter.preempt(1));
    assert_eq!(arbiter.lock(ResourceId::CartEncoder), Ok(()));
    assert_eq!(arbiter.complete(), Err(ArbiterError::LockHeld));
    assert_eq!(arbiter.unlock(ResourceId::CartEncoder), Ok(()));
    assert_eq!(arbiter.complete(), Ok(()));
    assert_eq!(arbiter.complete(), Err(ArbiterError::NothingRunning));
    assert_eq!(arbiter.lock(ResourceId::CartEncoder), Ok(()));
    assert_eq!(arbiter.complete(), Err(ArbiterError::LockHeld));
}

#[test]
fn with_lock_runs_the_section_and_keeps_what_it_hands_back() {
    let mut arbiter = Arbiter::new(&task_table());
    let mut cell = SharedCell::new(ResourceId::CartEncoder, 5u32);
    assert_eq!(cell.resource(), ResourceId::CartEncoder);
    assert!(cell.is_initialized());
    assert_eq!(arbiter.with_lock(&mut cell, |value| (value + 1, value * 10)), Ok(50));
    assert_eq!(arbiter.with_lock(&mut cell, |value| (value, value)), Ok(6));
    assert!(arbiter.is_idle());
    assert!(!arbiter.is_held(ResourceId::CartEncoder));
    assert_eq!(cell.install(9), Some(6));
    assert_eq!(arbiter.with_lock(&mut cell, |value| (value, value)), Ok(9));
}

#[test]
fn with_lock_reports_a_refusal_and_leaves_the_cell_alone() {
    let mut arbiter = Arbiter::new(&task_table());
    let mut motor = SharedCell::new(ResourceId::MotorDriver, 5u32);
    let mut vacant: SharedCell<u32> = SharedCell::vacant(ResourceId::CartEncoder);
    assert_eq!(
        arbiter.with_lock(&mut vacant, |value| (value + 1, ())),
        Err(ArbiterError::Uninitialized)
    );
    assert!(arbiter.is_idle());
    assert!(arbiter.preempt(1));
    assert_eq!(
        arbiter.with_lock(&mut motor, |value| (value + 1, ())),
        Err(ArbiterError::CeilingViolation)
    );
    assert_eq!(arbiter.complete(), Ok(()));
    assert_eq!(arbiter.lock(ResourceId::MotorDriver), Ok(()));
    assert_eq!(
        arbiter.with_lock(&mut motor, |value| (value + 1, ())),
        Err(ArbiterError::AlreadyHeld)
    );
    assert_eq!(arbiter.unlock(ResourceId::MotorDriver), Ok(()));
    assert_eq!(arbiter.with_lock(&mut motor, |value| (value, value)), Ok(5));
}

/// The handler of the cart's edges, dispatched if the arbiter lets it
/// preempt: it takes the encoder, steps it and gives it back.
fn run_handler_if_it_may(arbiter: &mut Arbiter, encoder: &mut Encoder, now: Instant) -> bool {
    if !arbiter.preempt(2) {
        return false;
    }
    assert_eq!(arbiter.lock(ResourceId::CartEncoder), Ok(()));
    let next = Phases { a: !encoder.phases().b, b: encoder.phases().a };
    assert_eq!(encoder.update(next, now), Ok(Direction::Forward));
    assert_eq!(arbiter.unlock(ResourceId::CartEncoder), Ok(()));
    assert_eq!(arbiter.complete(), Ok(()));
    true
}

#[test]
fn no_interleaving_of_handler_and_task_sees_half_a_sample() {
    let low = Phases { a: false, b: false };
    let start = Angle::new(2400, 0).unwrap();
    let first = Sample { angle: start, instant: Instant { ticks: 0 } };
    for edge_at in 0..6u64 {
        for edge_first in [true, false] {
            let mut arbiter = Arbiter::new(&task_table());
            let mut encoder = Encoder::new(low, start, first.instant);
            let mut pending = false;
            let mut handled_at: Option<u64> = None;
            let mut angle_seen: Option<Angle> = None;
            let mut instant_seen: Option<Instant> = None;
            for moment in 0..6u64 {
                let now = Instant { ticks: 100 + moment };
                if moment == edge_at && edge_first {
                    pending = true;
                }
                if pending && run_handler_if_it_may(&mut arbiter, &mut encoder, now) {
                    pending = false;
                    handled_at = Some(moment);
                }
                match moment {
                    1 => assert!(arbiter.preempt(1)),
                    2 => {
                        assert_eq!(arbiter.lock(ResourceId::CartEncoder), Ok(()));
                        angle_seen = Some(encoder.last_sample().angle);
                    }
                    3 => {
                        instant_seen = Some(encoder.last_sample().instant);
                        assert_eq!(arbiter.unlock(ResourceId::CartEncoder), Ok(()));
                    }
                    4 => assert_eq!(arbiter.complete(), Ok(())),
                    _ => {}
                }
                if moment == edge_at && !edge_first {
                    pending = true;
                }
                if pending && run_handler_if_it_may(&mut arbiter, &mut encoder, now) {
                    pending = false;
                    handled_at = Some(moment);
                }
            }
            assert!(arbiter.is_idle());
            let handled_at = handled_at.expect("the edge is served in the end");
            assert!(handled_at >= edge_at);
            let stepped = encoder.last_sample();
            assert_eq!(stepped.angle.counts(), 1);
            assert_eq!(stepped.instant, Instant { ticks: 100 + handled_at });
            assert_eq!(encoder.previous_sample(), Some(first));
            let seen = Sample { angle: angle_seen.unwrap(), instant: instant_seen.unwrap() };
            assert!(seen == first || seen == stepped, "torn sample {:?}", seen);
            let held_when_it_fired = (edge_at == 2 && !edge_first) || (edge_at == 3 && edge_first);
            if held_when_it_fired {
                assert_eq!(handled_at, 3);
                assert_eq!(seen, first);
            } else {
                assert_eq!(handled_at, edge_at);
            }
        }
    }
}
