//! The millisecond clock: a counter that a periodic timer interrupt advances.
use vstd::prelude::*;
use vstd::arithmetic::div_mod::lemma_add_mod_noop;

verus! {

/// The number of values that the counter can take: it has 32 bits.
pub open spec fn counter_modulus() -> int {
    0x1_0000_0000
}

/// Milliseconds since start-up, counted in steps of one tick period. The
/// interrupt that delivers the ticks calls `tick`, everything else calls
/// `now`; whoever owns the clock keeps the two from interleaving.
#[derive(Clone, Copy, Debug)]
pub struct MonotonicClock {
    millis: u32,
    tick_period: u32,
}

impl MonotonicClock {
    /// The counter's value.
    pub closed spec fn millis(&self) -> int {
        self.millis as int
    }

    /// Milliseconds that one tick adds.
    pub closed spec fn period(&self) -> int {
        self.tick_period as int
    }

    /// A clock at zero with the given tick period.
    pub closed spec fn started(tick_period: u32) -> Self {
        MonotonicClock { millis: 0, tick_period }
    }

    /// The clock one tick later: the period is added, modulo the counter's
    /// range.
    pub closed spec fn ticked(&self) -> Self {
        MonotonicClock {
            millis: ((self.millis + self.tick_period) % counter_modulus()) as u32,
            tick_period: self.tick_period,
        }
    }

    /// The clock `count` ticks later.
    pub open spec fn ticked_by(&self, count: nat) -> Self
        decreases count,
    {
        if count == 0 {
            *self
        } else {
            self.ticked_by((count - 1) as nat).ticked()
        }
    }

    /// A clock at zero whose ticks are `tick_period` milliseconds apart.
    pub fn new(tick_period: u32) -> (clock: Self)
        ensures
            clock == Self::started(tick_period),
            clock.millis() == 0,
            clock.period() == tick_period,
    {
        MonotonicClock { millis: 0, tick_period }
    }

    /// Counts one tick. On overflow the counter wraps round.
    pub fn tick(&mut self)
        ensures
            *final(self) == old(self).ticked(),
            final(self).period() == old(self).period(),
            final(self).millis() == (old(self).millis() + old(self).period()) % counter_modulus(),
    {
        self.millis = self.millis.wrapping_add(self.tick_period);
    }

    /// The milliseconds counted so far.
    pub fn now(&self) -> (millis: u32)
        ensures
            millis == self.millis(),
    {
        self.millis
    }
}

/// Milliseconds from `earlier` to `later` on a counter that may have
/// wrapped round in between, at most once.
pub open spec fn interval(earlier: u32, later: u32) -> int {
    (later - earlier) % counter_modulus()
}

/// The time from one reading of the clock to a later one, right across a
/// wrap of the counter.
pub fn millis_between(earlier: u32, later: u32) -> (elapsed: u32)
    ensures
        elapsed == interval(earlier, later),
{
    later.wrapping_sub(earlier)
}

/// After `count` ticks a clock that started at zero reads `count` times the
/// tick period, modulo the counter's range.
pub proof fn lemma_now_after_ticks(tick_period: u32, count: nat)
    ensures
        MonotonicClock::started(tick_period).ticked_by(count).period() == tick_period,
        MonotonicClock::started(tick_period).ticked_by(count).millis() == (count * tick_period)
            % counter_modulus(),
    decreases count,
{
    if count > 0 {
        let before = (count - 1) as nat;
        lemma_now_after_ticks(tick_period, before);
        assert(count * tick_period == before * tick_period + tick_period) by (nonlinear_arith)
            requires
                count == before + 1,
        ;
        lemma_add_mod_noop(before * tick_period, tick_period as int, counter_modulus());
    }
}

/// What was read `elapsed` milliseconds apart is `elapsed` apart by
/// `millis_between`, whether or not the counter wrapped round in between,
/// as long as less than one full range of the counter has passed.
pub proof fn lemma_interval_across_wrap(earlier: u32, elapsed: nat)
    requires
        elapsed < counter_modulus(),
    ensures
        interval(earlier, ((earlier + elapsed) % counter_modulus()) as u32) == elapsed,
{
}

} // verus!
