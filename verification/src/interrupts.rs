//! The edge handlers: which encoder and which pin each interrupt line
//! serves, and what a handler does when its line fires.

use vstd::prelude::*;

verus! {

use crate::arbiter::{lemma_new_context_finds_resource_free, Arbiter, ArbiterError};
use crate::encoders::{Direction, Encoder, EncoderError, Phases};
use crate::fault::Fault;
use crate::init::{table_ceiling, Shared, Snapshot, EDGE_PRIORITY};
use crate::scheduler::{InterruptLine, ResourceId};
use crate::timing::{ClockError, Instant, StopWatch};

/// The pending flags that a handler is to clear before it returns.
#[derive(Clone, Copy, Debug, PartialEq, Eq, Structural)]
pub struct Acknowledge {
    pub pin_a: bool,
    pub pin_b: bool,
}

/// What an interrupt line is bound to.
#[derive(Clone, Copy, Debug, PartialEq, Eq, Structural)]
pub struct Binding {
    pub encoder: ResourceId,
    pub acknowledge: Acknowledge,
}

/// The binding of `line`: lines 0 and 2 serve phases A and B of the
/// pendulum's encoder, lines 1 and 3 those of the cart's.
pub open spec fn spec_binding(line: InterruptLine) -> Binding {
    match line {
        InterruptLine::Exti0 => Binding {
            encoder: ResourceId::PendulumEncoder,
            acknowledge: Acknowledge { pin_a: true, pin_b: false },
        },
        InterruptLine::Exti1 => Binding {
            encoder: ResourceId::CartEncoder,
            acknowledge: Acknowledge { pin_a: true, pin_b: false },
        },
        InterruptLine::Exti2Tsc => Binding {
            encoder: ResourceId::PendulumEncoder,
            acknowledge: Acknowledge { pin_a: false, pin_b: true },
        },
        InterruptLine::Exti3 => Binding {
            encoder: ResourceId::CartEncoder,
            acknowledge: Acknowledge { pin_a: false, pin_b: true },
        },
    }
}

/// The binding of `line`.
#[verifier::when_used_as_spec(spec_binding)]
pub fn binding(line: InterruptLine) -> (bound: Binding)
    ensures
        bound == binding(line),
{
    match line {
        InterruptLine::Exti0 => Binding {
            encoder: ResourceId::PendulumEncoder,
            acknowledge: Acknowledge { pin_a: true, pin_b: false },
        },
        InterruptLine::Exti1 => Binding {
            encoder: ResourceId::CartEncoder,
            acknowledge: Acknowledge { pin_a: true, pin_b: false },
        },
        InterruptLine::Exti2Tsc => Binding {
            encoder: ResourceId::PendulumEncoder,
            acknowledge: Acknowledge { pin_a: false, pin_b: true },
        },
        InterruptLine::Exti3 => Binding {
            encoder: ResourceId::CartEncoder,
            acknowledge: Acknowledge { pin_a: false, pin_b: true },
        },
    }
}

/// What a handler reports when `line` fires while the processor runs at
/// `arbiter`'s priority and the cells hold `before`.
///
/// The handler stays pending unless its priority is above the
/// processor's. Once it runs, it takes the clock and hands it the reading
/// `cycle_count`, then takes its encoder and hands it `phases` with the
/// instant that the clock gave. It reports the first refusal it meets, and
/// otherwise the flag to clear and the direction of the step.
pub open spec fn service_outcome(
    arbiter: Arbiter,
    before: Snapshot,
    line: InterruptLine,
    cycle_count: u32,
    phases: Phases,
) -> Result<(Acknowledge, Direction), Fault> {
    let bound = binding(line);
    if EDGE_PRIORITY <= arbiter.priority() {
        Err(Fault::Pending)
    } else if arbiter.ceiling(ResourceId::StopWatch) < EDGE_PRIORITY {
        Err(Fault::Arbiter(ArbiterError::CeilingViolation))
    } else {
        match before.clock.verdict(cycle_count) {
            Err(error) => Err(Fault::Clock(error)),
            Ok(()) => {
                if arbiter.ceiling(bound.encoder) < EDGE_PRIORITY {
                    Err(Fault::Arbiter(ArbiterError::CeilingViolation))
                } else {
                    match before.encoder(bound.encoder).verdict(phases) {
                        Err(error) => Err(Fault::Encoder(error)),
                        Ok(direction) => Ok((bound.acknowledge, direction)),
                    }
                }
            },
        }
    }
}

/// What the cells hold after the handler of `line` has had its turn: the
/// clock has taken in the reading unless the handler stayed pending or was
/// refused the clock, and the encoder of the line has taken in the phases
/// if the clock accepted the reading and the handler was not refused the
/// encoder. The other encoder is as before.
pub open spec fn service_effect(
    arbiter: Arbiter,
    before: Snapshot,
    line: InterruptLine,
    cycle_count: u32,
    phases: Phases,
) -> Snapshot {
    let bound = binding(line);
    if EDGE_PRIORITY <= arbiter.priority() || arbiter.ceiling(ResourceId::StopWatch)
        < EDGE_PRIORITY {
        before
    } else if before.clock.verdict(cycle_count) is Err || arbiter.ceiling(bound.encoder)
        < EDGE_PRIORITY {
        Snapshot { clock: before.clock.next(cycle_count), ..before }
    } else {
        let clock = before.clock.next(cycle_count);
        let stepped = before.encoder(bound.encoder).next(
            phases,
            Instant { ticks: clock.cycles() as u64 },
        );
        if bound.encoder == ResourceId::PendulumEncoder {
            Snapshot { clock, cart: before.cart, pendulum: stepped }
        } else {
            Snapshot { clock, cart: stepped, pendulum: before.pendulum }
        }
    }
}

/// Under the ceilings of the firmware's task table no handler is ever
/// refused a resource: the table gives each handler a claim to what it
/// takes, so that a ceiling violation is ruled out before the firmware
/// runs.
pub proof fn lemma_task_table_admits_handlers(
    arbiter: Arbiter,
    before: Snapshot,
    line: InterruptLine,
    cycle_count: u32,
    phases: Phases,
)
    requires
        forall|resource: ResourceId| #[trigger] arbiter.ceiling(resource) == table_ceiling(resource),
    ensures
        !(service_outcome(arbiter, before, line, cycle_count, phases) matches Err(
            Fault::Arbiter(_),
        )),
{
    assert(arbiter.ceiling(ResourceId::StopWatch) == table_ceiling(ResourceId::StopWatch));
    assert(arbiter.ceiling(binding(line).encoder) == table_ceiling(binding(line).encoder));
}

/// The handler of `line`: run when the line fires, with the cycle counter
/// and the phases of the line's encoder as just read. When it returns, the
/// processor is back at the priority it had before.
pub fn service(shared: &mut Shared, line: InterruptLine, cycle_count: u32, phases: Phases) -> (outcome:
    Result<(Acknowledge, Direction), Fault>)
    requires
        old(shared).wf(),
    ensures
        final(shared).wf(),
        final(shared).arbiter.ceilings() == old(shared).arbiter.ceilings(),
        final(shared).arbiter.frames() == old(shared).arbiter.frames(),
        outcome == service_outcome(old(shared).arbiter, old(shared)@, line, cycle_count, phases),
        final(shared)@ == service_effect(
            old(shared).arbiter,
            old(shared)@,
            line,
            cycle_count,
            phases,
        ),
{
    if !shared.arbiter.preempt(EDGE_PRIORITY) {
        return Err(Fault::Pending);
    }
    let bound = binding(line);
    proof {
        if shared.arbiter.ceiling(ResourceId::StopWatch) >= EDGE_PRIORITY {
            lemma_new_context_finds_resource_free(shared.arbiter, ResourceId::StopWatch);
        }
        if shared.arbiter.ceiling(bound.encoder) >= EDGE_PRIORITY {
            lemma_new_context_finds_resource_free(shared.arbiter, bound.encoder);
        }
    }
    let read = |clock: StopWatch| -> (out: (StopWatch, Result<Instant, ClockError>))
        ensures
            out.0@ == clock@.next(cycle_count),
            match out.1 {
                Ok(instant) => clock@.verdict(cycle_count) is Ok && instant.ticks
                    == out.0@.cycles(),
                Err(error) => clock@.verdict(cycle_count) == Err::<(), ClockError>(error),
            },
        {
            let mut clock = clock;
            let outcome = clock.now(cycle_count);
            (clock, outcome)
        };
    let outcome = match shared.arbiter.with_lock(&mut shared.stopwatch, read) {
        Err(error) => Err(Fault::Arbiter(error)),
        Ok(Err(error)) => Err(Fault::Clock(error)),
        Ok(Ok(instant)) => {
            let step = |encoder: Encoder| -> (out: (Encoder, Result<Direction, EncoderError>))
                ensures
                    out.0@ == encoder@.next(phases, instant),
                    out.1 == encoder@.verdict(phases),
                {
                    let mut encoder = encoder;
                    let outcome = encoder.update(phases, instant);
                    (encoder, outcome)
                };
            let stepped = match bound.encoder {
                ResourceId::PendulumEncoder => shared.arbiter.with_lock(
                    &mut shared.pendulum_encoder,
                    step,
                ),
                _ => shared.arbiter.with_lock(&mut shared.cart_encoder, step),
            };
            match stepped {
                Err(error) => Err(Fault::Arbiter(error)),
                Ok(Err(error)) => Err(Fault::Encoder(error)),
                Ok(Ok(direction)) => Ok((bound.acknowledge, direction)),
            }
        },
    };
    let ended = shared.arbiter.complete();
    assert(ended is Ok);
    assert(shared.arbiter.frames() =~= old(shared).arbiter.frames());
    outcome
}

} // verus!
