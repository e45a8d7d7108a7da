//! The fixed-interval gates that rate-limit gameplay to the tick rate. The
//! host reports elapsed milliseconds every frame; a gate fires at most once
//! per accumulated period, however many frames fall within it.

use vstd::prelude::*;

verus! {

/// Interval of the movement / heading-resolution tick gate.
pub const TICK_INTERVAL_MS: u64 = 200;

/// Interval of the periodic food respawn check.
pub const FOOD_RESPAWN_INTERVAL_MS: u64 = 3000;

/// Settle delay before a key press may restart a finished game, so the
/// keypress that caused death is not consumed as a restart.
pub const GAME_OVER_SETTLE_MS: u64 = 200;

/// Whether a gate fires once and stays finished, or fires and rearms.
#[derive(Clone, Copy, Debug, PartialEq, Eq, Structural)]
pub enum TimerMode {
    Once,
    Repeating,
}

/// A frame-driven interval gate: it banks the milliseconds the host reports
/// and fires when a full period has accumulated.
#[derive(Clone, Copy, Debug, PartialEq, Eq, Structural)]
pub struct TickTimer {
    pub period_ms: u64,
    pub elapsed_ms: u64,
    pub mode: TimerMode,
}

impl TickTimer {
    /// A well-formed gate: a positive period, with no more time banked than
    /// one period, and a repeating gate strictly below it.
    pub open spec fn wf(self) -> bool {
        &&& 0 < self.period_ms
        &&& self.elapsed_ms <= self.period_ms
        &&& self.mode is Repeating ==> self.elapsed_ms < self.period_ms
    }

    /// A fresh gate with nothing banked.
    pub fn new(period_ms: u64, mode: TimerMode) -> (t: TickTimer)
        requires
            0 < period_ms,
        ensures
            t.wf(),
            t.period_ms == period_ms,
            t.elapsed_ms == 0,
            t.mode == mode,
    {
        TickTimer { period_ms, elapsed_ms: 0, mode }
    }

    /// Advance by `delta_ms` elapsed milliseconds and return true when the
    /// timer fires. In `Repeating` mode it fires and starts over each time
    /// a full period has accumulated, dropping any excess; in `Once` mode it
    /// reaches its period a single time and then stays finished on every
    /// later frame.
    pub fn advance(&mut self, delta_ms: u64) -> (fired: bool)
        requires
            old(self).wf(),
            delta_ms <= u64::MAX - old(self).period_ms,
        ensures
            final(self).wf(),
            final(self).period_ms == old(self).period_ms,
            final(self).mode == old(self).mode,
            fired == (old(self).elapsed_ms + delta_ms >= old(self).period_ms),
            fired ==> final(self).elapsed_ms == (if old(self).mode is Repeating {
                0int
            } else {
                old(self).period_ms as int
            }),
            !fired ==> final(self).elapsed_ms == old(self).elapsed_ms + delta_ms,
    {
        let total = self.elapsed_ms + delta_ms;
        if total >= self.period_ms {
            match self.mode {
                TimerMode::Repeating => {
                    self.elapsed_ms = 0;
                },
                TimerMode::Once => {
                    self.elapsed_ms = self.period_ms;
                },
            }
            true
        } else {
            self.elapsed_ms = total;
            false
        }
    }

    /// Whether a one-shot gate has already reached its period.
    pub fn finished(&self) -> (r: bool)
        ensures
            r == (self.elapsed_ms >= self.period_ms),
    {
        self.elapsed_ms >= self.period_ms
    }
}

} // verus!
