//! The save gate: a two-state machine (`Restoring`, then `Active`) guarding
//! window-geometry persistence. While restoring, every save is suppressed;
//! once active, saves within the debounce window of the previous accepted
//! save are suppressed; an accepted save atomically moves the timestamp.

use vstd::prelude::*;

verus! {

/// Minimum interval, in milliseconds, between two accepted saves.
pub const DEBOUNCE_MS: u64 = 1000;

/// Delay, in milliseconds, after which the host flips the guard from
/// `Restoring` to `Active`, measured from construction.
pub const SETTLE_DELAY_MS: u64 = 500;

/// Whether a save is allowed for a guard whose state is (`restoring`,
/// `last_save_at`) when asked at time `now` (all times in milliseconds on one
/// monotonic clock): the guard is active and at least the debounce window has
/// passed since the last accepted save.
pub open spec fn save_allowed(restoring: bool, last_save_at: u64, now: u64) -> bool {
    &&& !restoring
    &&& now - last_save_at >= DEBOUNCE_MS
}

/// Gates window-state saves. Starts in the `Restoring` state; the host flips
/// it to `Active` exactly once, after the settle delay. Each query is a single
/// compare-and-update step, so a caller holding `&mut` access (for instance
/// through a mutex) evaluates the condition and moves the timestamp atomically.
pub struct StateSaveGuard {
    restoring: bool,
    last_save_at: u64,
}

impl StateSaveGuard {
    /// Whether the guard is still in its `Restoring` state.
    pub closed spec fn is_restoring(&self) -> bool {
        self.restoring
    }

    /// The time, in milliseconds, of the last accepted save (construction
    /// time if none was accepted yet).
    pub closed spec fn last_save_at(&self) -> u64 {
        self.last_save_at
    }

    /// A new guard: restoring, with the save clock set to `now_ms`.
    pub fn new(now_ms: u64) -> (g: StateSaveGuard)
        ensures
            g.is_restoring(),
            g.last_save_at() == now_ms,
    {
        StateSaveGuard { restoring: true, last_save_at: now_ms }
    }

    /// The one transition out of `Restoring`; there is no way back, so once
    /// active the guard stays active for the life of the process.
    pub fn finish_restore(&mut self)
        ensures
            !final(self).is_restoring(),
            final(self).last_save_at() == old(self).last_save_at(),
    {
        self.restoring = false;
    }

    /// Whether the guard is restoring, as an executable query.
    pub fn restoring(&self) -> (r: bool)
        ensures
            r == self.is_restoring(),
    {
        self.restoring
    }

    /// Returns whether a save may proceed at `now_ms`, and if so, moves the
    /// save clock to `now_ms` in the same step. Suppressed while restoring,
    /// and within `DEBOUNCE_MS` of the previous accepted save.
    pub fn attempt_save(&mut self, now_ms: u64) -> (allowed: bool)
        ensures
            allowed == save_allowed(old(self).is_restoring(), old(self).last_save_at(), now_ms),
            final(self).is_restoring() == old(self).is_restoring(),
            final(self).last_save_at() == if allowed {
                now_ms
            } else {
                old(self).last_save_at()
            },
    {
        if self.restoring {
            return false;
        }
        if now_ms < self.last_save_at || now_ms - self.last_save_at < DEBOUNCE_MS {
            return false;
        }
        self.last_save_at = now_ms;
        true
    }
}

/// A guard in the `Restoring` state never allows a save, however much time
/// has passed since the last accepted one.
pub proof fn lemma_no_save_while_restoring(last_save_at: u64, now: u64)
    ensures
        !save_allowed(true, last_save_at, now),
{
}

/// Two save attempts within the debounce window of each other cannot both be
/// allowed: if the first is accepted at `t1`, a second at `t2` less than
/// `DEBOUNCE_MS` later is refused.
pub proof fn lemma_debounce_excludes_second(restoring: bool, t1: u64, t2: u64)
    requires
        t1 <= t2,
        t2 - t1 < DEBOUNCE_MS,
    ensures
        !save_allowed(restoring, t1, t2),
{
}

} // verus!
