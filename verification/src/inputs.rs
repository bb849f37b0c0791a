//! The two inputs: a debounced push button and a potentiometer.
use vstd::prelude::*;

verus! {

/// Milliseconds that a level has to hold before it is accepted.
pub const DEBOUNCE_MILLIS: u32 = 10;

/// Number of values that a raw potentiometer sample can take: it has
/// twelve bits.
pub const SAMPLE_RANGE: u32 = 4096;

/// What a poll of the button reports: the accepted level, and whether this
/// poll changed it.
#[derive(Clone, Copy, Debug, PartialEq, Eq, Structural)]
pub enum DebouncedOutput {
    Constant(bool),
    Changed(bool),
}

/// The debouncer as a mathematical value.
pub struct DebounceState {
    /// Milliseconds that a level has to hold before it is accepted.
    pub window: int,
    /// The level that counts as the input's stable level.
    pub accepted: bool,
    /// The raw level at the latest poll.
    pub last_raw: bool,
    /// The time of the latest poll at which the raw level differed from the
    /// poll before it.
    pub last_change: int,
}

/// Milliseconds from `then` to `now`, zero where `now` is the earlier one.
pub open spec fn elapsed_since(now: int, then: int) -> int {
    if now >= then {
        now - then
    } else {
        0
    }
}

impl DebounceState {
    /// The time from which the window is measured once a poll at `now` has
    /// seen `raw`: `now` itself where the raw level has just flipped.
    pub open spec fn change_time(self, raw: bool, now: int) -> int {
        if raw != self.last_raw {
            now
        } else {
            self.last_change
        }
    }

    /// Whether a poll at `now` that sees `raw` accepts it as the new level:
    /// it differs from the accepted level and has held for the window.
    pub open spec fn accepts(self, raw: bool, now: int) -> bool {
        raw != self.accepted && elapsed_since(now, self.change_time(raw, now)) >= self.window
    }

    /// The state after a poll at `now` that sees `raw`.
    pub open spec fn polled(self, raw: bool, now: int) -> DebounceState {
        DebounceState {
            window: self.window,
            accepted: if self.accepts(raw, now) {
                raw
            } else {
                self.accepted
            },
            last_raw: raw,
            last_change: self.change_time(raw, now),
        }
    }

    /// What a poll at `now` that sees `raw` reports.
    pub open spec fn report(self, raw: bool, now: int) -> DebouncedOutput {
        if self.accepts(raw, now) {
            DebouncedOutput::Changed(raw)
        } else {
            DebouncedOutput::Constant(self.accepted)
        }
    }

    /// The state after polls at the times `times`, all of which see `raw`.
    pub open spec fn polled_all(self, raw: bool, times: Seq<u32>) -> DebounceState
        decreases times.len(),
    {
        if times.len() == 0 {
            self
        } else {
            self.polled_all(raw, times.drop_last()).polled(raw, times.last() as int)
        }
    }
}

/// A debouncer with the usual window at rest at the high level.
pub open spec fn idle_high() -> DebounceState {
    DebounceState { window: DEBOUNCE_MILLIS as int, accepted: true, last_raw: true, last_change: 0 }
}

/// A report with its level inverted: what a poll says of "the pin is low"
/// when it was asked of "the pin is high".
pub open spec fn inverted(out: DebouncedOutput) -> DebouncedOutput {
    match out {
        DebouncedOutput::Constant(v) => DebouncedOutput::Constant(!v),
        DebouncedOutput::Changed(v) => DebouncedOutput::Changed(!v),
    }
}

/// A digital input whose level is accepted only after it has held for the
/// debounce window. It reads neither the pin nor a clock: each poll is handed
/// the raw level and the time at which it was read.
#[derive(Clone, Copy, Debug)]
pub struct DebouncedDInput {
    delay_millis: u32,
    now_state: bool,
    last_state: bool,
    last_millis: u32,
}

impl View for DebouncedDInput {
    type V = DebounceState;

    closed spec fn view(&self) -> DebounceState {
        DebounceState {
            window: self.delay_millis as int,
            accepted: self.now_state,
            last_raw: self.last_state,
            last_change: self.last_millis as int,
        }
    }
}

impl DebouncedDInput {
    /// An input that idles high, as a pin with a pull-up does.
    pub fn with_pullup() -> (input: Self)
        ensures
            input@ == idle_high(),
    {
        DebouncedDInput {
            delay_millis: DEBOUNCE_MILLIS,
            now_state: true,
            last_state: true,
            last_millis: 0,
        }
    }

    /// Polls for "the pin is low": as `is_high`, with the reported level
    /// inverted.
    pub fn is_low(&mut self, is_pin_high: bool, now_millis: u32) -> (out: DebouncedOutput)
        ensures
            final(self)@ == old(self)@.polled(is_pin_high, now_millis as int),
            out == inverted(old(self)@.report(is_pin_high, now_millis as int)),
    {
        match self.read(is_pin_high, now_millis) {
            DebouncedOutput::Constant(v) => DebouncedOutput::Constant(!v),
            DebouncedOutput::Changed(v) => DebouncedOutput::Changed(!v),
        }
    }

    /// Polls for "the pin is high".
    pub fn is_high(&mut self, is_pin_high: bool, now_millis: u32) -> (out: DebouncedOutput)
        ensures
            final(self)@ == old(self)@.polled(is_pin_high, now_millis as int),
            out == old(self)@.report(is_pin_high, now_millis as int),
    {
        self.read(is_pin_high, now_millis)
    }

    /// One poll: the pin read `is_pin_high` at `now_millis`. A raw level
    /// that differs from the one before restarts the window; a raw level
    /// that differs from the accepted one and has held for the window is
    /// accepted and reported as a change.
    pub fn read(&mut self, is_pin_high: bool, now_millis: u32) -> (out: DebouncedOutput)
        ensures
            final(self)@ == old(self)@.polled(is_pin_high, now_millis as int),
            out == old(self)@.report(is_pin_high, now_millis as int),
    {
        let mut ans = DebouncedOutput::Constant(self.now_state);
        if is_pin_high != self.last_state {
            self.last_millis = now_millis;
        }
        if now_millis.saturating_sub(self.last_millis) >= self.delay_millis && is_pin_high
            != self.now_state {
            self.now_state = is_pin_high;
            ans = DebouncedOutput::Changed(self.now_state);
        }
        self.last_state = is_pin_high;
        ans
    }

    /// The level that counts as stable.
    pub fn accepted_level(&self) -> (level: bool)
        ensures
            level == self@.accepted,
    {
        self.now_state
    }
}

/// Each time is at least the one before it.
pub open spec fn nondecreasing(times: Seq<u32>) -> bool {
    forall|i: int, j: int| 0 <= i <= j < times.len() ==> times[i] <= times[j]
}

/// Whether poll `k` is the first at which the window has passed since the
/// first poll.
pub open spec fn first_past_window(window: int, times: Seq<u32>, k: int) -> bool {
    &&& times[k] - times[0] >= window
    &&& (k == 0 || times[k - 1] - times[0] < window)
}

/// The state that `count` polls of one level lead to, from a state that
/// rested at the other level: the window runs from the first poll, and the
/// level is accepted once a poll came a window or more after the first.
proof fn lemma_polled_all(state: DebounceState, level: bool, times: Seq<u32>, count: int)
    requires
        state.accepted != level,
        state.last_raw != level,
        nondecreasing(times),
        1 <= count <= times.len(),
    ensures
        state.polled_all(level, times.take(count)) == (DebounceState {
            window: state.window,
            accepted: if times[count - 1] - times[0] >= state.window {
                level
            } else {
                !level
            },
            last_raw: level,
            last_change: times[0] as int,
        }),
    decreases count,
{
    let prefix = times.take(count);
    assert(prefix.drop_last() =~= times.take(count - 1));
    assert(prefix.last() == times[count - 1]);
    if count == 1 {
        assert(prefix.drop_last().len() == 0);
        assert(state.polled_all(level, prefix.drop_last()) == state);
    } else {
        lemma_polled_all(state, level, times, count - 1);
        assert(times[0] <= times[count - 2] <= times[count - 1]);
    }
}

/// A level that holds from the first poll on is reported as a change
/// exactly once. The input rested at the other level; the polls come at
/// `times`, in order, and all see `level`, so the first of them is the one
/// that sees the flip. Poll `k` then reports a change to `level` if it is the
/// first poll a window or more after the first one; an earlier poll reports
/// the old level unchanged, a later one the new level unchanged.
pub proof fn lemma_debounce_changes_once(
    state: DebounceState,
    level: bool,
    times: Seq<u32>,
    k: int,
)
    requires
        state.accepted != level,
        state.last_raw != level,
        nondecreasing(times),
        0 <= k < times.len(),
    ensures
        state.polled_all(level, times.take(k)).report(level, times[k] as int) == (if first_past_window(
            state.window,
            times,
            k,
        ) {
            DebouncedOutput::Changed(level)
        } else if times[k] - times[0] < state.window {
            DebouncedOutput::Constant(!level)
        } else {
            DebouncedOutput::Constant(level)
        }),
{
    if k == 0 {
        assert(times.take(0).len() == 0);
        assert(state.polled_all(level, times.take(0)) == state);
    } else {
        lemma_polled_all(state, level, times, k);
        assert(times[0] <= times[k - 1] <= times[k]);
    }
}

/// The percentage that a raw sample stands for: the sample times 100,
/// divided by 4096 and rounded down, and no more than 100.
pub open spec fn sample_percent(sample: u16) -> int {
    if sample as int * 100 / 4096 > 100 {
        100
    } else {
        sample as int * 100 / 4096
    }
}

/// A potentiometer read through a twelve-bit converter.
#[derive(Clone, Copy, Debug)]
pub struct PotRead {
    sample: u16,
}

impl PotRead {
    /// The latest raw sample.
    pub closed spec fn latest(&self) -> u16 {
        self.sample
    }

    /// A potentiometer of which no sample has been taken yet.
    pub fn with_adc01() -> (pot: Self)
        ensures
            pot.latest() == 0,
    {
        PotRead { sample: 0 }
    }

    /// Takes in a raw sample and returns the position that it stands for,
    /// in percent.
    pub fn read_percent(&mut self, sample: u16) -> (percent: u16)
        ensures
            final(self).latest() == sample,
            percent == sample_percent(sample),
            percent <= 100,
    {
        self.sample = sample;
        let scaled: u32 = sample as u32 * 100 / SAMPLE_RANGE;
        if scaled > 100 {
            100
        } else {
            scaled as u16
        }
    }
}

} // verus!
