//! A stopwatch that accumulates the time of each frame while it runs.

use vstd::prelude::*;
use crate::utils::{format_time_precise, minutes_seconds_centis_text, MICROS_PER_CENTI};

verus! {

/// What a stopwatch holds: the time counted so far and whether it counts.
pub struct StopwatchState {
    pub elapsed: nat,
    pub running: bool,
}

impl StopwatchState {
    /// A fresh stopwatch: nothing counted, not running.
    pub open spec fn initial() -> StopwatchState {
        StopwatchState { elapsed: 0, running: false }
    }

    pub open spec fn start(self) -> StopwatchState {
        StopwatchState { running: true, ..self }
    }

    pub open spec fn stop(self) -> StopwatchState {
        StopwatchState { running: false, ..self }
    }

    pub open spec fn reset(self) -> StopwatchState {
        StopwatchState { elapsed: 0, running: false }
    }

    /// One frame of `delta` microseconds: counted while running, up to the
    /// largest count a `u64` holds.
    pub open spec fn tick(self, delta: nat) -> StopwatchState {
        if self.running {
            let sum = self.elapsed + delta;
            StopwatchState { elapsed: if sum > u64::MAX { u64::MAX as nat } else { sum }, ..self }
        } else {
            self
        }
    }
}

/// Starting a stopwatch and letting a frame of `delta` pass adds exactly
/// `delta` to the time counted, and a reset always leaves it at zero and
/// stopped, whatever it held.
pub proof fn lemma_stopwatch_counts_and_resets(s: StopwatchState, delta: nat)
    requires
        s.elapsed + delta <= u64::MAX,
    ensures
        s.start().tick(delta).elapsed == s.elapsed + delta,
        s.start().tick(delta).running,
        s.reset().elapsed == 0,
        !s.reset().running,
{
}

pub struct Stopwatch {
    elapsed_micros: u64,
    is_running: bool,
}

impl View for Stopwatch {
    type V = StopwatchState;

    closed spec fn view(&self) -> StopwatchState {
        StopwatchState { elapsed: self.elapsed_micros as nat, running: self.is_running }
    }
}

impl Stopwatch {
    pub fn new() -> (r: Stopwatch)
        ensures
            r@ == StopwatchState::initial(),
    {
        Stopwatch { elapsed_micros: 0, is_running: false }
    }

    /// Starts counting; a running stopwatch goes on as it was.
    pub fn start(&mut self)
        ensures
            final(self)@ == old(self)@.start(),
    {
        self.is_running = true;
    }

    /// Stops counting and keeps the time counted.
    pub fn stop(&mut self)
        ensures
            final(self)@ == old(self)@.stop(),
    {
        self.is_running = false;
    }

    /// Clears the time counted and stops.
    pub fn reset(&mut self)
        ensures
            final(self)@ == old(self)@.reset(),
    {
        self.elapsed_micros = 0;
        self.is_running = false;
    }

    /// One frame of `delta_micros` microseconds.
    pub fn tick(&mut self, delta_micros: u64)
        ensures
            final(self)@ == old(self)@.tick(delta_micros as nat),
    {
        if self.is_running {
            self.elapsed_micros = self.elapsed_micros.saturating_add(delta_micros);
        }
    }

    /// The time counted, as `MM:SS.CC`.
    pub fn display(&self) -> (r: String)
        ensures
            r@ == minutes_seconds_centis_text(self@.elapsed / MICROS_PER_CENTI as nat),
    {
        format_time_precise(self.elapsed_micros / MICROS_PER_CENTI)
    }

    pub fn elapsed_micros(&self) -> (r: u64)
        ensures
            r == self@.elapsed,
    {
        self.elapsed_micros
    }

    pub fn is_running(&self) -> (r: bool)
        ensures
            r == self@.running,
    {
        self.is_running
    }
}

impl Default for Stopwatch {
    fn default() -> (r: Stopwatch)
        ensures
            r@ == StopwatchState::initial(),
    {
        Stopwatch::new()
    }
}

} // verus!
