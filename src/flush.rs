use vstd::prelude::*;

verus! {

/// The flush interval of the periodic policy by default: thirty seconds.
pub const SAVE_INTERVAL_MS: u64 = 30000;

/// When the history is written to disk.
#[derive(Debug, Clone, Copy, PartialEq, Eq)]
pub enum FlushPolicy {
    /// After every recorded entry.
    SaveOnChange,
    /// Whenever `interval_ms` has passed since the last save.
    Periodic { interval_ms: u64 },
}

impl Default for FlushPolicy {
    fn default() -> (r: FlushPolicy)
        ensures
            r == (FlushPolicy::Periodic { interval_ms: SAVE_INTERVAL_MS }),
    {
        FlushPolicy::Periodic { interval_ms: SAVE_INTERVAL_MS }
    }
}

/// The milliseconds from `from` to `to`; none where the clock went back.
pub open spec fn elapsed(from: u64, to: u64) -> u64 {
    if to >= from {
        (to - from) as u64
    } else {
        0
    }
}

/// Decides when the history is saved, from the policy and the time of the
/// last save (milliseconds on a monotonic clock).
#[derive(Debug, Clone, Copy, PartialEq, Eq)]
pub struct FlushScheduler {
    pub policy: FlushPolicy,
    pub last_saved_ms: u64,
}

/// A timer tick at `now` asks for a save when the policy is periodic and its
/// interval has passed since the last save.
pub open spec fn flush_due(s: FlushScheduler, now: u64) -> bool {
    match s.policy {
        FlushPolicy::Periodic { interval_ms } => elapsed(s.last_saved_ms, now) >= interval_ms,
        FlushPolicy::SaveOnChange => false,
    }
}

/// A recorded entry asks for a save at once under the save-on-change policy.
pub open spec fn saves_on_change(s: FlushScheduler) -> bool {
    s.policy is SaveOnChange
}

impl FlushScheduler {
    /// A scheduler whose last save is taken to be at `now_ms`.
    pub fn new(policy: FlushPolicy, now_ms: u64) -> (r: FlushScheduler)
        ensures
            r.policy == policy,
            r.last_saved_ms == now_ms,
    {
        FlushScheduler { policy, last_saved_ms: now_ms }
    }

    /// A timer tick at `now_ms`: whether to save now. A save restarts the interval.
    pub fn on_tick(&mut self, now_ms: u64) -> (r: bool)
        ensures
            r == flush_due(*old(self), now_ms),
            final(self).policy == old(self).policy,
            final(self).last_saved_ms == if r { now_ms } else { old(self).last_saved_ms },
    {
        let due = match self.policy {
            FlushPolicy::Periodic { interval_ms } => {
                let passed: u64 = if now_ms >= self.last_saved_ms {
                    now_ms - self.last_saved_ms
                } else {
                    0
                };
                passed >= interval_ms
            },
            FlushPolicy::SaveOnChange => false,
        };
        if due {
            self.last_saved_ms = now_ms;
        }
        due
    }

    /// An entry was recorded at `now_ms`: whether to save now.
    pub fn on_append(&mut self, now_ms: u64) -> (r: bool)
        ensures
            r == saves_on_change(*old(self)),
            final(self).policy == old(self).policy,
            final(self).last_saved_ms == if r { now_ms } else { old(self).last_saved_ms },
    {
        let save = match self.policy {
            FlushPolicy::SaveOnChange => true,
            FlushPolicy::Periodic { .. } => false,
        };
        if save {
            self.last_saved_ms = now_ms;
        }
        save
    }

    /// The history was saved at `now_ms` outside the schedule (a clear, which
    /// is always saved at once): the interval starts again.
    pub fn saved_at(&mut self, now_ms: u64)
        ensures
            final(self).policy == old(self).policy,
            final(self).last_saved_ms == now_ms,
    {
        self.last_saved_ms = now_ms;
    }
}

} // verus!
