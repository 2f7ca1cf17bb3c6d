//! The adaptive scheduler: how often the vision engine may run, given how
//! long its last run took.

use vstd::prelude::*;

verus! {

/// Pause added to the measured duration of a run before the next may start.
pub const SAFETY_MARGIN_MS: u64 = 50;

/// When the vision engine last ran and how long to wait before it runs
/// again, both in milliseconds.
#[derive(Clone, Copy, Debug, PartialEq, Eq, Structural)]
pub struct SchedulerState {
    pub last_run_timestamp_ms: u64,
    pub next_min_interval_ms: u64,
}

/// Milliseconds from `last` to `now` on a 64-bit clock that wraps: a clock
/// that has stepped back reads as a very long time, never as a negative one.
pub open spec fn elapsed_ms(last: u64, now: u64) -> int {
    if now >= last {
        now - last
    } else {
        now - last + 0x1_0000_0000_0000_0000
    }
}

impl SchedulerState {
    /// The interval never drops below the safety margin.
    pub open spec fn wf(&self) -> bool {
        self.next_min_interval_ms >= SAFETY_MARGIN_MS
    }

    /// Enough time has passed since the last run.
    pub open spec fn is_due(&self, now_ms: u64) -> bool {
        elapsed_ms(self.last_run_timestamp_ms, now_ms) >= self.next_min_interval_ms
    }

    /// The state after a run that started at `now_ms` and was not timed for
    /// throttling: only the time of the run is noted.
    pub open spec fn after_untimed_run(&self, now_ms: u64) -> SchedulerState {
        SchedulerState {
            last_run_timestamp_ms: now_ms,
            next_min_interval_ms: self.next_min_interval_ms,
        }
    }

    /// The state after a run that started at `now_ms` and took
    /// `measured_ms`: the next run waits for that long plus the margin.
    pub open spec fn after_timed_run(&self, now_ms: u64, measured_ms: u32) -> SchedulerState {
        SchedulerState {
            last_run_timestamp_ms: now_ms,
            next_min_interval_ms: (measured_ms + SAFETY_MARGIN_MS) as u64,
        }
    }

    /// A scheduler that has never run and waits for the margin alone.
    pub fn new() -> (s: SchedulerState)
        ensures
            s.last_run_timestamp_ms == 0,
            s.next_min_interval_ms == SAFETY_MARGIN_MS,
            s.wf(),
    {
        SchedulerState { last_run_timestamp_ms: 0, next_min_interval_ms: SAFETY_MARGIN_MS }
    }

    /// Milliseconds since the last run.
    pub fn elapsed(&self, now_ms: u64) -> (e: u64)
        ensures
            e == elapsed_ms(self.last_run_timestamp_ms, now_ms),
    {
        if now_ms >= self.last_run_timestamp_ms {
            now_ms - self.last_run_timestamp_ms
        } else {
            (u64::MAX - (self.last_run_timestamp_ms - now_ms)) + 1
        }
    }

    /// Whether a frame that arrives at `now_ms` may be processed.
    pub fn due(&self, now_ms: u64) -> (b: bool)
        ensures
            b == self.is_due(now_ms),
    {
        self.elapsed(now_ms) >= self.next_min_interval_ms
    }

    /// Notes a run that is not throttled.
    pub fn record_untimed_run(&mut self, now_ms: u64)
        ensures
            *final(self) == old(self).after_untimed_run(now_ms),
            old(self).wf() ==> final(self).wf(),
    {
        self.last_run_timestamp_ms = now_ms;
    }

    /// Notes a run and sets the interval to its duration plus the margin.
    pub fn record_timed_run(&mut self, now_ms: u64, measured_ms: u32)
        ensures
            *final(self) == old(self).after_timed_run(now_ms, measured_ms),
            final(self).next_min_interval_ms == measured_ms + SAFETY_MARGIN_MS,
            final(self).wf(),
    {
        self.last_run_timestamp_ms = now_ms;
        self.next_min_interval_ms = measured_ms as u64 + SAFETY_MARGIN_MS;
    }
}

/// After a timed run, no frame is due before the measured duration and the
/// margin have both passed.
pub proof fn lemma_throttled_after_timed_run(
    before: SchedulerState,
    now_ms: u64,
    measured_ms: u32,
    later_ms: u64,
)
    requires
        now_ms <= later_ms,
        later_ms - now_ms < measured_ms + SAFETY_MARGIN_MS,
    ensures
        !before.after_timed_run(now_ms, measured_ms).is_due(later_ms),
{
}

/// Once the interval has passed, the frame is due.
pub proof fn lemma_due_after_interval(state: SchedulerState, later_ms: u64)
    requires
        state.last_run_timestamp_ms <= later_ms,
        later_ms - state.last_run_timestamp_ms >= state.next_min_interval_ms,
    ensures
        state.is_due(later_ms),
{
}

} // verus!
