//! Velocity estimation: the rate of turn between two timestamped
//! positions, and the correction for a tick count that started over
//! between them.

use vstd::prelude::*;

verus! {

use crate::angle::{quotient_towards_zero, Angle};
use crate::encoders::{Encoder, Sample};

/// A rate of turn in thousandths of a degree per second.
#[derive(Clone, Copy, Debug, PartialEq, Eq, Structural)]
pub struct DegreesPerSecond {
    pub millidegrees: i128,
}

/// Why no velocity could be given.
#[derive(Clone, Copy, Debug, PartialEq, Eq, Structural)]
pub enum VelocityError {
    /// The later sample carries the smaller tick count: the count started
    /// over between the two, and their difference would wrap.
    OverflowWouldOccur,
    /// Both samples carry the same tick count.
    NoTimeElapsed,
    /// The two positions are not measured on the same wheel.
    DifferentWheels,
}

/// The rate of turn, in thousandths of a degree per second and rounded
/// towards zero, of a member that went from `previous` to `current` in
/// `elapsed` ticks of a clock that ticks `ticks_per_second` times a second:
/// the counts stepped, times 360 000 over the counts of a revolution, times
/// the ticks of a second over the ticks elapsed.
pub open spec fn rate(ticks_per_second: u32, previous: Angle, current: Angle, elapsed: int) -> int {
    quotient_towards_zero(
        (current.counts_from_origin() - previous.counts_from_origin()) * (360_000
            * ticks_per_second),
        current.counts_per_revolution() * elapsed,
    )
}

/// The velocity between two positions reached at the tick counts
/// `previous_ticks` and `current_ticks`, which are not bounded here.
pub open spec fn velocity_between(
    ticks_per_second: u32,
    previous: Angle,
    previous_ticks: int,
    current: Angle,
    current_ticks: int,
) -> Result<int, VelocityError> {
    if !previous.same_wheel(current) {
        Err(VelocityError::DifferentWheels)
    } else if current_ticks < previous_ticks {
        Err(VelocityError::OverflowWouldOccur)
    } else if current_ticks == previous_ticks {
        Err(VelocityError::NoTimeElapsed)
    } else {
        Ok(rate(ticks_per_second, previous, current, current_ticks - previous_ticks))
    }
}

/// The velocity between two samples whose tick count started over once in
/// between, at `max_tick_value`: the interval is split at that boundary, so
/// that the ticks before it and the ticks after it add up to the time
/// elapsed, counted from zero.
pub open spec fn one_off_velocity_between(
    ticks_per_second: u32,
    max_tick_value: u64,
    previous: Sample,
    current: Sample,
) -> Result<int, VelocityError> {
    if !previous.angle.same_wheel(current.angle) {
        Err(VelocityError::DifferentWheels)
    } else if previous.instant.ticks > max_tick_value {
        Err(VelocityError::OverflowWouldOccur)
    } else {
        velocity_between(
            ticks_per_second,
            previous.angle,
            0,
            current.angle,
            (max_tick_value - previous.instant.ticks) + current.instant.ticks,
        )
    }
}

/// The velocity between two samples, corrected where the tick count
/// started over between them.
pub open spec fn recovered_velocity_between(
    ticks_per_second: u32,
    max_tick_value: u64,
    previous: Sample,
    current: Sample,
) -> Result<int, VelocityError> {
    let direct = velocity_between(
        ticks_per_second,
        previous.angle,
        previous.instant.ticks as int,
        current.angle,
        current.instant.ticks as int,
    );
    if direct == Err::<int, VelocityError>(VelocityError::OverflowWouldOccur) {
        one_off_velocity_between(ticks_per_second, max_tick_value, previous, current)
    } else {
        direct
    }
}

/// Whether the executable result `outcome` is the result `model`.
pub open spec fn matches_model(
    outcome: Result<DegreesPerSecond, VelocityError>,
    model: Result<int, VelocityError>,
) -> bool {
    match outcome {
        Ok(velocity) => model == Ok::<int, VelocityError>(velocity.millidegrees as int),
        Err(error) => model == Err::<int, VelocityError>(error),
    }
}

/// Computes velocities for a clock that ticks `ticks_per_second` times a
/// second and, where it is bounded, starts over at `max_tick_value`.
#[derive(Clone, Copy, Debug, PartialEq, Eq, Structural)]
pub struct VelocityEstimator {
    pub ticks_per_second: u32,
    pub max_tick_value: u64,
}

impl VelocityEstimator {
    /// The rate of turn over `elapsed` ticks, which are not zero, between
    /// two positions on the same wheel.
    fn rate_over(&self, previous: Angle, current: Angle, elapsed: u128) -> (velocity:
        DegreesPerSecond)
        requires
            previous.same_wheel(current),
            0 < elapsed < 0x2_0000_0000_0000_0000,
        ensures
            velocity.millidegrees == rate(self.ticks_per_second, previous, current, elapsed as int),
    {
        let stepped: i64 = current.counts() as i64 - previous.counts() as i64;
        let scale: u128 = 360_000 * (self.ticks_per_second as u128);
        let per_revolution: u128 = current.counts_per_revolution() as u128;
        assert(0 < per_revolution * elapsed < 0x2_0000_0000_0000_0000_0000_0000) by (nonlinear_arith)
            requires
                0 < per_revolution < 0x1_0000_0000,
                0 < elapsed < 0x2_0000_0000_0000_0000,
        ;
        let divisor: u128 = per_revolution * elapsed;
        if stepped >= 0 {
            let turned: u128 = stepped as u128;
            assert(0 <= turned * scale < 0x1_0000_0000_0000_0000_0000_0000) by (nonlinear_arith)
                requires
                    0 <= turned < 0x1_0000_0000,
                    0 <= scale < 0x1_0000_0000_0000_0000,
            ;
            DegreesPerSecond { millidegrees: ((turned * scale) / divisor) as i128 }
        } else {
            let turned: u128 = (-stepped) as u128;
            assert(0 <= turned * scale < 0x1_0000_0000_0000_0000_0000_0000) by (nonlinear_arith)
                requires
                    0 <= turned < 0x1_0000_0000,
                    0 <= scale < 0x1_0000_0000_0000_0000,
            ;
            assert(turned * scale == -(stepped * scale)) by (nonlinear_arith)
                requires
                    turned == -stepped,
            ;
            DegreesPerSecond { millidegrees: -(((turned * scale) / divisor) as i128) }
        }
    }

    /// The velocity between two samples: the rate of turn from `previous`
    /// to `current`, or the reason why there is none.
    pub fn velocity(&self, previous: Sample, current: Sample) -> (outcome: Result<
        DegreesPerSecond,
        VelocityError,
    >)
        ensures
            matches_model(
                outcome,
                velocity_between(
                    self.ticks_per_second,
                    previous.angle,
                    previous.instant.ticks as int,
                    current.angle,
                    current.instant.ticks as int,
                ),
            ),
    {
        if previous.angle.counts_per_revolution() != current.angle.counts_per_revolution()
            || previous.angle.origin_offset_counts() != current.angle.origin_offset_counts() {
            Err(VelocityError::DifferentWheels)
        } else if current.instant.ticks < previous.instant.ticks {
            Err(VelocityError::OverflowWouldOccur)
        } else if current.instant.ticks == previous.instant.ticks {
            Err(VelocityError::NoTimeElapsed)
        } else {
            let elapsed: u64 = current.instant.ticks - previous.instant.ticks;
            Ok(self.rate_over(previous.angle, current.angle, elapsed as u128))
        }
    }
    /// The velocity between two samples of a bounded tick count that
    /// started over once between them, with the interval split at the
    /// boundary.
    pub fn one_off_velocity(&self, previous: Sample, current: Sample) -> (outcome: Result<
        DegreesPerSecond,
        VelocityError,
    >)
        ensures
            matches_model(
                outcome,
                one_off_velocity_between(
                    self.ticks_per_second,
                    self.max_tick_value,
                    previous,
                    current,
                ),
            ),
    {
        if previous.angle.counts_per_revolution() != current.angle.counts_per_revolution()
            || previous.angle.origin_offset_counts() != current.angle.origin_offset_counts() {
            Err(VelocityError::DifferentWheels)
        } else if previous.instant.ticks > self.max_tick_value {
            Err(VelocityError::OverflowWouldOccur)
        } else {
            let before_boundary: u64 = self.max_tick_value - previous.instant.ticks;
            let elapsed: u128 = before_boundary as u128 + current.instant.ticks as u128;
            if elapsed == 0 {
                Err(VelocityError::NoTimeElapsed)
            } else {
                Ok(self.rate_over(previous.angle, current.angle, elapsed))
            }
        }
    }

    /// The velocity of `encoder` between its last two samples, whichever
    /// way it has to be computed; `None` before the encoder's first step.
    pub fn of_encoder(&self, encoder: &Encoder) -> (outcome: Option<
        Result<DegreesPerSecond, VelocityError>,
    >)
        ensures
            match encoder@.previous {
                None => outcome is None,
                Some(previous) => outcome matches Some(velocity) && matches_model(
                    velocity,
                    recovered_velocity_between(
                        self.ticks_per_second,
                        self.max_tick_value,
                        previous,
                        encoder@.current,
                    ),
                ),
            },
    {
        match encoder.previous_sample() {
            None => None,
            Some(previous) => Some(self.velocity_with_recovery(previous, encoder.last_sample())),
        }
    }

    /// The velocity between two samples, whichever way it has to be
    /// computed: directly, or, where the tick count started over between
    /// the samples, with the interval split at the boundary. With
    /// `previous` inside the bound, that case never shows as an error.
    pub fn velocity_with_recovery(&self, previous: Sample, current: Sample) -> (outcome: Result<
        DegreesPerSecond,
        VelocityError,
    >)
        ensures
            matches_model(
                outcome,
                recovered_velocity_between(
                    self.ticks_per_second,
                    self.max_tick_value,
                    previous,
                    current,
                ),
            ),
            previous.instant.ticks <= self.max_tick_value ==> outcome != Err::<
                DegreesPerSecond,
                VelocityError,
            >(VelocityError::OverflowWouldOccur),
    {
        match self.velocity(previous, current) {
            Err(VelocityError::OverflowWouldOccur) => self.one_off_velocity(previous, current),
            outcome => outcome,
        }
    }
}

/// The two ways agree. For samples of a bounded tick count that started
/// over once between them, the velocity over the split interval is the
/// velocity computed directly from the same two samples once the later
/// tick count is no longer bounded, that is, with the boundary added to it.
pub proof fn lemma_one_off_agrees_with_direct(
    ticks_per_second: u32,
    max_tick_value: u64,
    previous: Sample,
    current: Sample,
)
    requires
        current.instant.ticks < previous.instant.ticks <= max_tick_value,
    ensures
        one_off_velocity_between(ticks_per_second, max_tick_value, previous, current)
            == velocity_between(
            ticks_per_second,
            previous.angle,
            previous.instant.ticks as int,
            current.angle,
            max_tick_value + current.instant.ticks,
        ),
{
}

/// A velocity depends on the tick counts only through their difference:
/// moving both samples by the same number of ticks changes nothing.
pub proof fn lemma_velocity_ignores_epoch(
    ticks_per_second: u32,
    previous: Angle,
    previous_ticks: int,
    current: Angle,
    current_ticks: int,
    shift: int,
)
    ensures
        velocity_between(
            ticks_per_second,
            previous,
            previous_ticks + shift,
            current,
            current_ticks + shift,
        ) == velocity_between(ticks_per_second, previous, previous_ticks, current, current_ticks),
{
}

} // verus!
