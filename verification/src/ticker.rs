//! Progress tracking for a timed phase: a tick counter advanced at most
//! once per wall-clock interval, and a completion fraction against a
//! target duration, expressed in hundredths (floor truncation).

use vstd::prelude::*;

verus! {

/// Milliseconds that must have passed since the last recorded update
/// (strictly more) before `tick` counts another tick.
pub const TICK_THRESHOLD_MS: u64 = 950;

/// Elapsed-tick counter for the phase currently being timed.
///
/// `elapsed_ticks` only grows between resets, by one per accepted tick;
/// `last_update_ms` is the wall-clock reading (in milliseconds) at which
/// the last tick was accepted.
pub struct ProgressTracker {
    pub elapsed_ticks: u32,
    pub last_update_ms: u64,
}

impl ProgressTracker {
    /// A tick is due at `now_ms` when strictly more than
    /// `TICK_THRESHOLD_MS` milliseconds have passed since the last update.
    pub open spec fn tick_due(self, now_ms: u64) -> bool {
        now_ms > self.last_update_ms + TICK_THRESHOLD_MS
    }

    /// The tracker after a `tick` call at wall-clock reading `now_ms`.
    pub open spec fn spec_tick(self, now_ms: u64) -> ProgressTracker {
        if self.tick_due(now_ms) {
            ProgressTracker {
                elapsed_ticks: (self.elapsed_ticks + 1) as u32,
                last_update_ms: now_ms,
            }
        } else {
            self
        }
    }

    /// Completion of `elapsed` ticks against a `target` duration, in
    /// hundredths: floor(elapsed / target * 100). May exceed 100 when the
    /// phase has run past its target; that excess signals completion to
    /// the caller rather than being clamped.
    pub open spec fn spec_fraction(elapsed: u32, target: u32) -> int
        recommends
            target > 0,
    {
        (elapsed * 100) / (target as int)
    }

    /// A fresh tracker: no ticks yet, last updated at `now_ms`.
    pub fn new(now_ms: u64) -> (r: ProgressTracker)
        ensures
            r.elapsed_ticks == 0,
            r.last_update_ms == now_ms,
    {
        ProgressTracker { elapsed_ticks: 0, last_update_ms: now_ms }
    }

    /// Count one tick if strictly more than `TICK_THRESHOLD_MS`
    /// milliseconds have passed since the last update; otherwise leave the
    /// tracker unchanged.
    pub fn tick(&mut self, now_ms: u64)
        requires
            old(self).elapsed_ticks < u32::MAX,
            now_ms >= old(self).last_update_ms,
        ensures
            *final(self) == old(self).spec_tick(now_ms),
    {
        if now_ms - self.last_update_ms > TICK_THRESHOLD_MS {
            self.elapsed_ticks = self.elapsed_ticks + 1;
            self.last_update_ms = now_ms;
        }
    }

    /// Start timing a new phase: the tick count returns to zero and the
    /// update timestamp is left as it is.
    pub fn reset(&mut self)
        ensures
            final(self).elapsed_ticks == 0,
            final(self).last_update_ms == old(self).last_update_ms,
    {
        self.elapsed_ticks = 0;
    }

    /// Completion fraction against `target`, in hundredths
    /// (`50` means half done; values above `100` mean the phase ran over).
    pub fn fraction(&self, target: u32) -> (r: u64)
        requires
            target > 0,
        ensures
            r == Self::spec_fraction(self.elapsed_ticks, target),
    {
        (self.elapsed_ticks as u64) * 100 / (target as u64)
    }

    /// A tick accepted at `n1` suppresses any tick for the following
    /// `TICK_THRESHOLD_MS` milliseconds: two `tick` calls that close
    /// together advance `elapsed_ticks` at most once, and exactly once
    /// when the first call counted.
    pub proof fn lemma_tick_idempotent(p: ProgressTracker, n1: u64, n2: u64)
        requires
            p.elapsed_ticks < u32::MAX,
            n1 <= n2,
            n2 <= n1 + TICK_THRESHOLD_MS,
        ensures
            p.tick_due(n1) ==> p.spec_tick(n1).spec_tick(n2) == p.spec_tick(n1),
            p.spec_tick(n1).spec_tick(n2).elapsed_ticks <= p.elapsed_ticks + 1,
    {
    }

    /// Boundary values of the completion fraction: zero ticks give 0, and
    /// exactly `target` ticks give 100 (the full scale).
    pub proof fn lemma_fraction_boundary(target: u32)
        requires
            target > 0,
        ensures
            Self::spec_fraction(0, target) == 0,
            Self::spec_fraction(target, target) == 100,
    {
        assert((target * 100) / (target as int) == 100) by (nonlinear_arith)
            requires
                target > 0,
        ;
    }
}

} // verus!
