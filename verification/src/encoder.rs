//! What an edge handler does with its encoder once it holds it.

use vstd::prelude::*;

verus! {

use crate::encoders::{Direction, Encoder, EncoderError, Phases};
use crate::interrupts::Acknowledge;
use crate::timing::Instant;

/// Serves an edge on either phase of `encoder`: the pending flags of both
/// pins are to be cleared, whatever the encoder makes of the reading, and
/// the encoder takes in the phases as read at `instant`.
pub fn update(encoder: &mut Encoder, phases: Phases, instant: Instant) -> (served: (
    Acknowledge,
    Result<Direction, EncoderError>,
))
    ensures
        served.0 == (Acknowledge { pin_a: true, pin_b: true }),
        served.1 == old(encoder)@.verdict(phases),
        final(encoder)@ == old(encoder)@.next(phases, instant),
{
    let acknowledge = Acknowledge { pin_a: true, pin_b: true };
    let outcome = encoder.update(phases, instant);
    (acknowledge, outcome)
}

} // verus!
