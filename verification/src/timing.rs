//! The monotonic clock: a free-running 32-bit cycle counter widened to a
//! 64-bit tick count that never runs backwards.

use vstd::prelude::*;

verus! {

/// Frequency of the core clock that drives the cycle counter, in hertz.
pub const OPERATING_FREQUENCY_HZ: u32 = 48_000_000;

/// Number of distinct values of the cycle counter: it starts over at zero
/// after this many ticks.
pub open spec fn wrap_period() -> int {
    0x1_0000_0000
}

/// A point in time: ticks of the cycle counter since the epoch.
#[derive(Clone, Copy, Debug, PartialEq, Eq, Structural)]
pub struct Instant {
    pub ticks: u64,
}

impl Instant {
    /// Whole microseconds between the epoch and this instant.
    pub fn micro_seconds(&self) -> (us: u64)
        ensures
            us == self.ticks / 48,
    {
        self.ticks / ((OPERATING_FREQUENCY_HZ / 1_000_000) as u64)
    }

    /// Whole milliseconds between the epoch and this instant.
    pub fn milli_seconds(&self) -> (ms: u64)
        ensures
            ms == self.ticks / 48_000,
    {
        self.ticks / ((OPERATING_FREQUENCY_HZ / 1_000) as u64)
    }

    /// Ticks from `earlier` to this instant, or `None` when `earlier` is
    /// in fact later.
    pub fn ticks_since(&self, earlier: Instant) -> (elapsed: Option<u64>)
        ensures
            elapsed == if earlier.ticks <= self.ticks {
                Some((self.ticks - earlier.ticks) as u64)
            } else {
                None
            },
    {
        if earlier.ticks <= self.ticks {
            Some(self.ticks - earlier.ticks)
        } else {
            None
        }
    }
}

/// Why the clock refused a reading of the counter.
#[derive(Clone, Copy, Debug, PartialEq, Eq, Structural)]
pub enum ClockError {
    /// The counter showed the value it showed at the previous reading. The
    /// counter always advances between two readings, so the clock cannot
    /// tell how much time went by.
    RepeatedReading,
    /// The counter started over, and the count of its wraps is at its limit.
    EpochOverflow,
}

/// What the clock remembers: the counter value at the last reading, and
/// how often the counter has started over since the epoch.
pub struct ClockState {
    pub last_raw_count: u32,
    pub epoch_count: u32,
}

impl ClockState {
    /// Ticks since the epoch as of the last reading.
    pub open spec fn cycles(&self) -> int {
        self.epoch_count * wrap_period() + self.last_raw_count
    }

    /// What the clock answers to a reading `cycle_count` of the counter.
    pub open spec fn verdict(&self, cycle_count: u32) -> Result<(), ClockError> {
        if cycle_count == self.last_raw_count {
            Err(ClockError::RepeatedReading)
        } else if cycle_count < self.last_raw_count && self.epoch_count == u32::MAX {
            Err(ClockError::EpochOverflow)
        } else {
            Ok(())
        }
    }

    /// The state after the clock has accepted the reading `cycle_count`: a
    /// smaller value than the last one means that the counter started over
    /// once.
    pub open spec fn reading(&self, cycle_count: u32) -> ClockState {
        ClockState {
            last_raw_count: cycle_count,
            epoch_count: if cycle_count < self.last_raw_count {
                (self.epoch_count + 1) as u32
            } else {
                self.epoch_count
            },
        }
    }

    /// The state after the reading `cycle_count`, accepted or refused.
    pub open spec fn next(&self, cycle_count: u32) -> ClockState {
        if self.verdict(cycle_count) is Ok {
            self.reading(cycle_count)
        } else {
            *self
        }
    }

    /// The state after the readings `reads`, taken in turn.
    pub open spec fn replay(&self, reads: Seq<u32>) -> ClockState
        decreases reads.len(),
    {
        if reads.len() == 0 {
            *self
        } else {
            self.replay(reads.drop_last()).next(reads.last())
        }
    }

    /// Whether the clock accepts every one of the readings `reads`, taken
    /// in turn.
    pub open spec fn accepts(&self, reads: Seq<u32>) -> bool {
        forall|k: int|
            0 <= k < reads.len() ==> (#[trigger] self.replay(reads.take(k))).verdict(reads[k]) is Ok
    }
}

/// The clock. The minute hand is the counter value at the last reading,
/// the hour hand counts how often the counter has started over.
pub struct StopWatch {
    cycle_minute_hand: u32,
    cycle_hour_hand: u32,
}

impl View for StopWatch {
    type V = ClockState;

    closed spec fn view(&self) -> ClockState {
        ClockState { last_raw_count: self.cycle_minute_hand, epoch_count: self.cycle_hour_hand }
    }
}

impl StopWatch {
    /// Starts the clock at the counter's present value.
    pub fn new(cycle_count: u32) -> (clock: Self)
        ensures
            clock@ == (ClockState { last_raw_count: cycle_count, epoch_count: 0 }),
    {
        StopWatch { cycle_minute_hand: cycle_count, cycle_hour_hand: 0 }
    }

    /// A clock that has already seen `wraps` wraps of the counter and last
    /// read `cycle_count`.
    pub fn resume(wraps: u32, cycle_count: u32) -> (clock: Self)
        ensures
            clock@ == (ClockState { last_raw_count: cycle_count, epoch_count: wraps }),
    {
        StopWatch { cycle_minute_hand: cycle_count, cycle_hour_hand: wraps }
    }

    /// Takes in a reading of the counter.
    pub fn update(&mut self, cycle_count: u32) -> (outcome: Result<(), ClockError>)
        ensures
            outcome == old(self)@.verdict(cycle_count),
            final(self)@ == old(self)@.next(cycle_count),
            outcome is Ok ==> final(self)@.cycles() > old(self)@.cycles(),
    {
        if cycle_count > self.cycle_minute_hand {
            self.cycle_minute_hand = cycle_count;
            Ok(())
        } else if cycle_count < self.cycle_minute_hand {
            if self.cycle_hour_hand == u32::MAX {
                return Err(ClockError::EpochOverflow);
            }
            self.cycle_minute_hand = cycle_count;
            self.cycle_hour_hand += 1;
            Ok(())
        } else {
            Err(ClockError::RepeatedReading)
        }
    }

    /// Takes in a reading of the counter and gives the ticks since the epoch.
    pub fn cycles_since_epoch(&mut self, cycle_count: u32) -> (outcome: Result<u64, ClockError>)
        ensures
            final(self)@ == old(self)@.next(cycle_count),
            match outcome {
                Ok(cycles) => old(self)@.verdict(cycle_count) is Ok && cycles == final(self)@.cycles()
                    && cycles > old(self)@.cycles(),
                Err(error) => old(self)@.verdict(cycle_count) == Err::<(), ClockError>(error),
            },
    {
        match self.update(cycle_count) {
            Ok(()) => {
                let hour: u64 = self.cycle_hour_hand as u64;
                let minute: u64 = self.cycle_minute_hand as u64;
                assert((hour << 32) | minute == hour * 0x1_0000_0000 + minute) by (bit_vector)
                    requires
                        hour <= 0xffff_ffff,
                        minute <= 0xffff_ffff,
                ;
                Ok((hour << 32) | minute)
            },
            Err(error) => Err(error),
        }
    }

    /// Takes in a reading of the counter and gives the present instant.
    pub fn now(&mut self, cycle_count: u32) -> (outcome: Result<Instant, ClockError>)
        ensures
            final(self)@ == old(self)@.next(cycle_count),
            match outcome {
                Ok(instant) => old(self)@.verdict(cycle_count) is Ok
                    && instant.ticks == final(self)@.cycles()
                    && instant.ticks > old(self)@.cycles(),
                Err(error) => old(self)@.verdict(cycle_count) == Err::<(), ClockError>(error),
            },
    {
        match self.cycles_since_epoch(cycle_count) {
            Ok(cycles) => Ok(Instant { ticks: cycles }),
            Err(error) => Err(error),
        }
    }

    /// Takes in a reading of the counter and gives the whole microseconds
    /// since the epoch.
    pub fn micro_seconds_since_epoch(&mut self, cycle_count: u32) -> (outcome: Result<
        u64,
        ClockError,
    >)
        ensures
            final(self)@ == old(self)@.next(cycle_count),
            match outcome {
                Ok(us) => old(self)@.verdict(cycle_count) is Ok && us == final(self)@.cycles() / 48,
                Err(error) => old(self)@.verdict(cycle_count) == Err::<(), ClockError>(error),
            },
    {
        match self.cycles_since_epoch(cycle_count) {
            Ok(cycles) => Ok(cycles / ((OPERATING_FREQUENCY_HZ / 1_000_000) as u64)),
            Err(error) => Err(error),
        }
    }
}

/// The true tick count at the `k`-th reading of a run that starts at the
/// tick count `start` and goes on at the tick counts `times`: `start` for
/// `k == 0`, then the entries of `times`.
pub open spec fn time_at(start: int, times: Seq<int>, k: int) -> int {
    if k <= 0 {
        start
    } else {
        times[k - 1]
    }
}

/// Whether the tick counts `times` are each later than the one before (the
/// first later than `start`) by less than one wrap period, and fit 64 bits.
pub open spec fn paced(start: int, times: Seq<int>) -> bool {
    forall|k: int|
        0 <= k < times.len() ==> {
            &&& 0 < #[trigger] time_at(start, times, k + 1) - time_at(start, times, k)
                < wrap_period()
            &&& time_at(start, times, k + 1) < wrap_period() * wrap_period()
        }
}

/// What the counter shows at the true tick counts `times`.
pub open spec fn shown(times: Seq<int>) -> Seq<u32> {
    Seq::new(times.len(), |k: int| (times[k] % wrap_period()) as u32)
}

/// An accepted reading moves the clock forward.
pub proof fn lemma_reading_advances(clock: ClockState, cycle_count: u32)
    requires
        clock.verdict(cycle_count) is Ok,
    ensures
        clock.next(cycle_count).cycles() > clock.cycles(),
        clock.next(cycle_count).last_raw_count == cycle_count,
{
}

/// The clock is strictly monotonic: along any run of accepted readings,
/// whatever the counter showed, a later reading gives a later instant.
pub proof fn lemma_clock_strictly_increasing(clock: ClockState, reads: Seq<u32>, i: int, j: int)
    requires
        clock.accepts(reads),
        0 <= i < j <= reads.len(),
    ensures
        clock.replay(reads.take(i)).cycles() < clock.replay(reads.take(j)).cycles(),
    decreases j - i,
{
    let before = clock.replay(reads.take(j - 1));
    assert(reads.take(j).drop_last() =~= reads.take(j - 1));
    assert(reads.take(j).last() == reads[j - 1]);
    assert(clock.replay(reads.take(j)) == before.next(reads[j - 1]));
    lemma_reading_advances(before, reads[j - 1]);
    if i < j - 1 {
        lemma_clock_strictly_increasing(clock, reads, i, j - 1);
    }
}

/// One reading is exact: when fewer ticks than one wrap period (and at
/// least one) have gone by since the last reading, the clock accepts what
/// the counter shows and moves forward by just those ticks.
pub proof fn lemma_reading_tracks_elapsed(clock: ClockState, elapsed: int)
    requires
        0 < elapsed < wrap_period(),
        clock.cycles() + elapsed < wrap_period() * wrap_period(),
    ensures
        ({
            let cycle_count = ((clock.cycles() + elapsed) % wrap_period()) as u32;
            &&& clock.verdict(cycle_count) is Ok
            &&& clock.next(cycle_count).cycles() == clock.cycles() + elapsed
        }),
{
    let hour = clock.epoch_count as int;
    let minute = clock.last_raw_count as int;
    let sum = minute + elapsed;
    if sum < wrap_period() {
        assert((hour * wrap_period() + sum) % wrap_period() == sum);
    } else {
        assert((hour * wrap_period() + sum) % wrap_period() == sum - wrap_period());
        assert(hour < u32::MAX) by {
            if hour == u32::MAX {
                assert(hour * wrap_period() + sum >= wrap_period() * wrap_period());
            }
        }
    }
}

proof fn lemma_keeps_time_up_to(clock: ClockState, times: Seq<int>, m: int)
    requires
        paced(clock.cycles(), times),
        0 <= m <= times.len(),
    ensures
        clock.replay(shown(times).take(m)).cycles() == time_at(clock.cycles(), times, m),
        m < times.len() ==> clock.replay(shown(times).take(m)).verdict(shown(times)[m]) is Ok,
    decreases m,
{
    let reads = shown(times);
    let start = clock.cycles();
    if m == 0 {
        assert(reads.take(0).len() == 0);
    } else {
        lemma_keeps_time_up_to(clock, times, m - 1);
        let before = clock.replay(reads.take(m - 1));
        assert(0 < time_at(start, times, (m - 1) + 1) - time_at(start, times, m - 1)
            < wrap_period());
        lemma_reading_tracks_elapsed(before, times[m - 1] - before.cycles());
        assert(reads.take(m).drop_last() =~= reads.take(m - 1));
        assert(reads.take(m).last() == reads[m - 1]);
        assert(clock.replay(reads.take(m)) == before.next(reads[m - 1]));
    }
    if m < times.len() {
        let here = clock.replay(reads.take(m));
        assert(0 < time_at(start, times, m + 1) - time_at(start, times, m) < wrap_period());
        lemma_reading_tracks_elapsed(here, times[m] - here.cycles());
    }
}

/// The clock keeps true time: started at the true tick count, and read at
/// true tick counts less than one wrap period apart, it accepts every
/// reading and reports each of those tick counts exactly.
pub proof fn lemma_clock_keeps_time(clock: ClockState, times: Seq<int>)
    requires
        paced(clock.cycles(), times),
    ensures
        clock.accepts(shown(times)),
        forall|m: int|
            1 <= m <= times.len() ==> (#[trigger] clock.replay(shown(times).take(m))).cycles()
                == times[m - 1],
{
    let reads = shown(times);
    assert forall|k: int| 0 <= k < reads.len() implies (#[trigger] clock.replay(
        reads.take(k),
    )).verdict(reads[k]) is Ok by {
        lemma_keeps_time_up_to(clock, times, k);
    }
    assert forall|m: int| 1 <= m <= times.len() implies (#[trigger] clock.replay(
        reads.take(m),
    )).cycles() == times[m - 1] by {
        lemma_keeps_time_up_to(clock, times, m);
    }
}

} // verus!
