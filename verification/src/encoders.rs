//! Position tracking: decoding the two phase signals of a quadrature
//! encoder into steps, and keeping the last two timestamped positions.

use vstd::prelude::*;

verus! {

use crate::angle::Angle;
use crate::timing::Instant;

/// The levels of an encoder's two phase signals: `true` is high.
#[derive(Clone, Copy, Debug, PartialEq, Eq, Structural)]
pub struct Phases {
    pub a: bool,
    pub b: bool,
}

/// Which way an encoder stepped.
#[derive(Clone, Copy, Debug, PartialEq, Eq, Structural)]
pub enum Direction {
    /// Phase A leads phase B: one count up.
    Forward,
    /// Phase B leads phase A: one count down.
    Reverse,
    /// No step: nothing changed, or both phases changed at once.
    Stationary,
}

impl Direction {
    /// The change of the count that this direction stands for.
    pub open spec fn spec_count_change(&self) -> i8 {
        match self {
            Direction::Forward => 1,
            Direction::Reverse => -1i8,
            Direction::Stationary => 0,
        }
    }

    /// The change of the count that this direction stands for.
    #[verifier::when_used_as_spec(spec_count_change)]
    pub fn count_change(&self) -> (change: i8)
        ensures
            change == self.count_change(),
    {
        match self {
            Direction::Forward => 1,
            Direction::Reverse => -1,
            Direction::Stationary => 0,
        }
    }
}

/// The change of the count when the phases go from `previous` to `next`.
/// Exactly one phase changes in a valid step. Phase A leads when A changes
/// away from B or B changes to meet A, which counts up; the other two ways
/// count down. Anything else is no step.
pub open spec fn count_change(previous: Phases, next: Phases) -> int {
    if previous.a != next.a && previous.b == next.b {
        if next.a != next.b {
            1
        } else {
            -1
        }
    } else if previous.a == next.a && previous.b != next.b {
        if next.a == next.b {
            1
        } else {
            -1
        }
    } else {
        0
    }
}

/// The phases that follow `phases` when phase A leads: low-low, A high,
/// both high, B high, and low-low again.
pub open spec fn next_when_a_leads(phases: Phases) -> Phases {
    Phases { a: !phases.b, b: phases.a }
}

/// The four bits by which a step is looked up: bits 3 and 2 say whether B
/// and A are low now, bits 1 and 0 whether they were low before.
spec fn transition_code(previous: Phases, next: Phases) -> u8 {
    let now_b: int = if next.b { 0 } else { 8 };
    let now_a: int = if next.a { 0 } else { 4 };
    let before_b: int = if previous.b { 0 } else { 2 };
    let before_a: int = if previous.a { 0 } else { 1 };
    (now_b + now_a + before_b + before_a) as u8
}

/// The four bits by which a step is looked up.
fn transition_code_of(previous: Phases, next: Phases) -> (code: u8)
    ensures
        code == transition_code(previous, next),
        code < 16,
{
    let mut code: u8 = 0;
    if !previous.a {
        code = code + 1;
    }
    if !previous.b {
        code = code + 2;
    }
    if !next.a {
        code = code + 4;
    }
    if !next.b {
        code = code + 8;
    }
    code
}

/// Decodes the step between two readings of the phases.
pub fn decode(previous: Phases, next: Phases) -> (direction: Direction)
    ensures
        direction.count_change() == count_change(previous, next),
{
    let code: u8 = transition_code_of(previous, next);
    if code == 0b0010 || code == 0b0100 || code == 0b1011 || code == 0b1101 {
        Direction::Forward
    } else if code == 0b0001 || code == 0b0111 || code == 0b1000 || code == 0b1110 {
        Direction::Reverse
    } else {
        Direction::Stationary
    }
}

/// The decoding table. A step along the cycle in which phase A leads
/// counts one up, the same step taken backwards counts one down, and every
/// other pair of readings (no change, or both phases changed) leaves the
/// count alone.
pub proof fn lemma_count_change_table(previous: Phases, next: Phases)
    ensures
        next == next_when_a_leads(previous) <==> count_change(previous, next) == 1,
        previous == next_when_a_leads(next) <==> count_change(previous, next) == -1,
        next != next_when_a_leads(previous) && previous != next_when_a_leads(next) <==> count_change(
            previous,
            next,
        ) == 0,
        count_change(next, previous) == -count_change(previous, next),
{
}

/// Four steps with phase A in the lead bring the phases back to where they
/// were.
pub proof fn lemma_a_leads_cycle(phases: Phases)
    ensures
        next_when_a_leads(next_when_a_leads(next_when_a_leads(next_when_a_leads(phases))))
            == phases,
        next_when_a_leads(phases) != phases,
        next_when_a_leads(next_when_a_leads(phases)) != phases,
{
}

/// A position and the instant at which it was reached.
#[derive(Clone, Copy, Debug, PartialEq, Eq, Structural)]
pub struct Sample {
    pub angle: Angle,
    pub instant: Instant,
}

/// Why an encoder refused a reading.
#[derive(Clone, Copy, Debug, PartialEq, Eq, Structural)]
pub enum EncoderError {
    /// The step would take the count out of the range of 32 bits.
    PositionOverflow,
}

/// What an encoder remembers: the phases as last read, the position now
/// with the instant at which it was reached, and the sample that the last
/// step replaced (`None` before the first step).
pub struct EncoderState {
    pub phases: Phases,
    pub current: Sample,
    pub previous: Option<Sample>,
}

impl EncoderState {
    /// Whether a reading `phases` is a step that the count has no room for.
    pub open spec fn overflows(&self, phases: Phases) -> bool {
        !self.current.angle.has_room_for(count_change(self.phases, phases))
    }

    /// What the encoder answers to a reading `phases`: the direction of the
    /// step, or a refusal where the count has no room for it.
    pub open spec fn verdict(&self, phases: Phases) -> Result<Direction, EncoderError> {
        if self.overflows(phases) {
            Err(EncoderError::PositionOverflow)
        } else if count_change(self.phases, phases) == 1 {
            Ok(Direction::Forward)
        } else if count_change(self.phases, phases) == -1 {
            Ok(Direction::Reverse)
        } else {
            Ok(Direction::Stationary)
        }
    }

    /// The state after a reading `phases` at `instant`. A valid step moves
    /// the position by one count, stamps it with `instant` and keeps the
    /// sample that it replaces. A reading that is no step changes no sample.
    /// A step for which the count has no room changes nothing.
    pub open spec fn next(&self, phases: Phases, instant: Instant) -> EncoderState {
        let change = count_change(self.phases, phases);
        if self.overflows(phases) {
            *self
        } else if change == 0 {
            EncoderState { phases, current: self.current, previous: self.previous }
        } else {
            EncoderState {
                phases,
                current: Sample { angle: self.current.angle.moved_by(change), instant },
                previous: Some(self.current),
            }
        }
    }
}

/// A sample is replaced whole or not at all. Whatever the reading, the
/// encoder afterwards holds either the sample it held before, or one whose
/// position and instant are both new, with the old sample kept as the one
/// before it. No reading leaves a new position with an old instant or an
/// old position with a new instant.
pub proof fn lemma_sample_is_replaced_whole(state: EncoderState, phases: Phases, instant: Instant)
    ensures
        ({
            let after = state.next(phases, instant);
            let change = count_change(state.phases, phases);
            ||| after.current == state.current && after.previous == state.previous
            ||| {
                &&& change != 0
                &&& after.current.angle == state.current.angle.moved_by(change)
                &&& after.current.angle.counts() == state.current.angle.counts() + change
                &&& after.current.instant == instant
                &&& after.previous == Some(state.current)
            }
        }),
{
    let change = count_change(state.phases, phases);
    if !state.overflows(phases) && change != 0 {
        state.current.angle.lemma_moved_by(change);
    }
}

/// One quadrature encoder.
pub struct Encoder {
    phases: Phases,
    current: Sample,
    previous: Option<Sample>,
}

impl View for Encoder {
    type V = EncoderState;

    closed spec fn view(&self) -> EncoderState {
        EncoderState { phases: self.phases, current: self.current, previous: self.previous }
    }
}

impl Encoder {
    /// An encoder that reads `phases` and stands at `initial_angle` at
    /// `instant`.
    pub fn new(phases: Phases, initial_angle: Angle, instant: Instant) -> (encoder: Self)
        ensures
            encoder@ == (EncoderState {
                phases,
                current: Sample { angle: initial_angle, instant },
                previous: None,
            }),
    {
        Encoder { phases, current: Sample { angle: initial_angle, instant }, previous: None }
    }

    /// Takes in the phases as read at `instant`, after an edge on either.
    ///
    /// A valid step moves the position by one count, stamps it with
    /// `instant` and keeps the sample that it replaces. A reading that is no
    /// step changes no sample. A step for which the count has no room is
    /// refused and changes nothing.
    pub fn update(&mut self, phases: Phases, instant: Instant) -> (outcome: Result<
        Direction,
        EncoderError,
    >)
        ensures
            outcome == old(self)@.verdict(phases),
            final(self)@ == old(self)@.next(phases, instant),
            outcome matches Ok(direction) ==> {
                &&& direction.count_change() == count_change(old(self)@.phases, phases)
                &&& final(self)@.current.angle.counts() == old(self)@.current.angle.counts()
                    + direction.count_change()
                &&& final(self)@.current.angle.same_wheel(old(self)@.current.angle)
            },
    {
        let direction = decode(self.phases, phases);
        match direction {
            Direction::Stationary => {
                self.phases = phases;
                Ok(direction)
            },
            _ => {
                match self.current.angle.stepped(direction.count_change()) {
                    Some(angle) => {
                        self.phases = phases;
                        self.previous = Some(self.current);
                        self.current = Sample { angle, instant };
                        Ok(direction)
                    },
                    None => Err(EncoderError::PositionOverflow),
                }
            },
        }
    }

    /// The phases as last read.
    pub fn phases(&self) -> (phases: Phases)
        ensures
            phases == self@.phases,
    {
        self.phases
    }

    /// The position now.
    pub fn angle(&self) -> (angle: Angle)
        ensures
            angle == self@.current.angle,
    {
        self.current.angle
    }

    /// The position now and the instant at which it was reached.
    pub fn last_sample(&self) -> (sample: Sample)
        ensures
            sample == self@.current,
    {
        self.current
    }

    /// The sample that the last step replaced; `None` before the first step.
    pub fn previous_sample(&self) -> (sample: Option<Sample>)
        ensures
            sample == self@.previous,
    {
        self.previous
    }
}

} // verus!
