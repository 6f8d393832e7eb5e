//! The background loop: whenever no task runs, it works out how fast the
//! cart's wheel turns.

use vstd::prelude::*;

verus! {

use crate::encoders::{Encoder, EncoderState};
use crate::fault::Fault;
use crate::init::Shared;
use crate::velocity::{
    recovered_velocity_between,
    DegreesPerSecond,
    VelocityError,
    VelocityEstimator,
};

/// The velocity that `estimator` gives for an encoder in state `encoder`:
/// that between its last two samples, corrected where the tick count
/// started over between them, and `None` before the encoder's first step.
pub open spec fn velocity_of(estimator: VelocityEstimator, encoder: EncoderState) -> Result<
    Option<DegreesPerSecond>,
    Fault,
> {
    match encoder.previous {
        None => Ok(None),
        Some(previous) => match recovered_velocity_between(
            estimator.ticks_per_second,
            estimator.max_tick_value,
            previous,
            encoder.current,
        ) {
            Ok(velocity) => Ok(Some(DegreesPerSecond { millidegrees: velocity as i128 })),
            Err(error) => Err(Fault::Velocity(error)),
        },
    }
}

/// One turn of the background loop: takes the cart's encoder and gives the
/// velocity of the cart's wheel. The background runs only while no task
/// does; otherwise the turn is put off. Nothing that is shared changes.
pub fn cart_velocity(shared: &mut Shared, estimator: &VelocityEstimator) -> (outcome: Result<
    Option<DegreesPerSecond>,
    Fault,
>)
    requires
        old(shared).wf(),
    ensures
        final(shared).wf(),
        final(shared).arbiter.ceilings() == old(shared).arbiter.ceilings(),
        final(shared).arbiter.frames() == old(shared).arbiter.frames(),
        final(shared)@ == old(shared)@,
        outcome == if old(shared).arbiter.frames().len() > 0 {
            Err::<Option<DegreesPerSecond>, Fault>(Fault::Pending)
        } else {
            velocity_of(*estimator, old(shared)@.cart)
        },
{
    if !shared.arbiter.is_idle() {
        return Err(Fault::Pending);
    }
    let estimator = *estimator;
    let measure = |encoder: Encoder| -> (out: (
        Encoder,
        Option<Result<DegreesPerSecond, VelocityError>>,
    ))
        ensures
            out.0 == encoder,
            match encoder@.previous {
                None => out.1 is None,
                Some(previous) => out.1 matches Some(velocity) && crate::velocity::matches_model(
                    velocity,
                    recovered_velocity_between(
                        estimator.ticks_per_second,
                        estimator.max_tick_value,
                        previous,
                        encoder@.current,
                    ),
                ),
            },
        {
            let velocity = estimator.of_encoder(&encoder);
            (encoder, velocity)
        };
    match shared.arbiter.with_lock(&mut shared.cart_encoder, measure) {
        Err(error) => Err(Fault::Arbiter(error)),
        Ok(None) => Ok(None),
        Ok(Some(Ok(velocity))) => Ok(Some(velocity)),
        Ok(Some(Err(error))) => Err(Fault::Velocity(error)),
    }
}

} // verus!
