//! A countdown timer that runs down by the time of each frame and latches
//! "finished" when it reaches zero.

use vstd::prelude::*;
use crate::utils::{format_time, minutes_seconds_text, to_seconds, MICROS_PER_SECOND};

verus! {

/// What a timer holds: the minutes and seconds it is set to, the time left
/// in microseconds, and the two flags.
pub struct TimerState {
    pub minutes: nat,
    pub seconds: nat,
    pub remaining: nat,
    pub running: bool,
    pub finished: bool,
}

impl TimerState {
    /// A fresh timer: set to zero, nothing left, idle.
    pub open spec fn initial() -> TimerState {
        TimerState { minutes: 0, seconds: 0, remaining: 0, running: false, finished: false }
    }

    /// The duration the timer is set to, in seconds.
    pub open spec fn target(self) -> nat {
        self.minutes * 60 + self.seconds
    }

    /// "Finished" is only ever set on a running timer with nothing left.
    pub open spec fn wf(self) -> bool {
        self.finished ==> self.running && self.remaining == 0
    }

    /// Running and not yet at zero.
    pub open spec fn counting(self) -> bool {
        self.running && !self.finished
    }

    /// A new setting takes effect only while the timer is not running.
    pub open spec fn configure(self, minutes: nat, seconds: nat) -> TimerState {
        if self.running {
            self
        } else {
            TimerState { minutes, seconds, ..self }
        }
    }

    /// Unless counting already, run down from the full setting.
    pub open spec fn start(self) -> TimerState {
        if self.counting() {
            self
        } else {
            TimerState {
                remaining: self.target() * MICROS_PER_SECOND as nat,
                running: true,
                finished: false,
                ..self
            }
        }
    }

    /// Back to idle; the time left stays as it was.
    pub open spec fn stop(self) -> TimerState {
        TimerState { running: false, finished: false, ..self }
    }

    /// One frame of `delta` microseconds: while running, the time left goes
    /// down by `delta` but not below zero, and at zero the timer is finished.
    pub open spec fn tick(self, delta: nat) -> TimerState {
        if self.running {
            let left: nat = if self.remaining > delta { (self.remaining - delta) as nat } else { 0 };
            TimerState { remaining: left, finished: left == 0, ..self }
        } else {
            self
        }
    }
}

/// A timer set to ten seconds while idle and then started has ten seconds
/// left; a frame of fifteen seconds from there leaves it at zero and
/// finished.
pub proof fn lemma_timer_runs_out(s: TimerState)
    requires
        !s.running,
    ensures
        s.configure(0, 10).start().remaining == 10 * MICROS_PER_SECOND,
        s.configure(0, 10).start().tick(15 * MICROS_PER_SECOND as nat).remaining == 0,
        s.configure(0, 10).start().tick(15 * MICROS_PER_SECOND as nat).finished,
{
}

/// A frame never adds to the time left (which, being a count, is never
/// negative), and every command keeps the "finished" rule.
pub proof fn lemma_timer_steps_keep_rule(s: TimerState, delta: nat, minutes: nat, seconds: nat)
    requires
        s.wf(),
    ensures
        s.tick(delta).remaining <= s.remaining,
        s.tick(delta).wf(),
        s.configure(minutes, seconds).wf(),
        s.start().wf(),
        s.stop().wf(),
{
}

pub struct Timer {
    target_minutes: u32,
    target_seconds: u32,
    remaining_micros: u64,
    is_running: bool,
    is_finished: bool,
}

impl View for Timer {
    type V = TimerState;

    closed spec fn view(&self) -> TimerState {
        TimerState {
            minutes: self.target_minutes as nat,
            seconds: self.target_seconds as nat,
            remaining: self.remaining_micros as nat,
            running: self.is_running,
            finished: self.is_finished,
        }
    }
}

impl Timer {
    #[verifier::type_invariant]
    spec fn inv(&self) -> bool {
        self@.wf()
    }

    pub fn new() -> (r: Timer)
        ensures
            r@ == TimerState::initial(),
    {
        Timer {
            target_minutes: 0,
            target_seconds: 0,
            remaining_micros: 0,
            is_running: false,
            is_finished: false,
        }
    }

    /// Sets the minutes and seconds to count down from; ignored while running.
    pub fn configure(&mut self, minutes: u32, seconds: u32)
        ensures
            final(self)@ == old(self)@.configure(minutes as nat, seconds as nat),
    {
        proof {
            use_type_invariant(&*self);
        }
        if !self.is_running {
            *self = Timer { target_minutes: minutes, target_seconds: seconds, ..*self };
        }
    }

    /// Runs down from the full setting, unless already counting.
    pub fn start(&mut self)
        ensures
            final(self)@ == old(self)@.start(),
    {
        if !(self.is_running && !self.is_finished) {
            let total = to_seconds(self.target_minutes, self.target_seconds);
            assert(total * 1_000_000 <= u64::MAX) by (nonlinear_arith)
                requires
                    total <= 4_294_967_295 * 61,
            ;
            *self = Timer {
                remaining_micros: total * MICROS_PER_SECOND,
                is_running: true,
                is_finished: false,
                ..*self
            };
        }
    }

    /// Back to idle.
    pub fn stop(&mut self)
        ensures
            final(self)@ == old(self)@.stop(),
    {
        *self = Timer { is_running: false, is_finished: false, ..*self };
    }

    /// One frame of `delta_micros` microseconds.
    pub fn tick(&mut self, delta_micros: u64)
        ensures
            final(self)@ == old(self)@.tick(delta_micros as nat),
    {
        if self.is_running {
            let left = self.remaining_micros.saturating_sub(delta_micros);
            *self = Timer { remaining_micros: left, is_finished: left == 0, ..*self };
        }
    }

    /// The time left in whole seconds, as `MM:SS`.
    pub fn display(&self) -> (r: String)
        ensures
            r@ == minutes_seconds_text(self@.remaining / MICROS_PER_SECOND as nat),
    {
        format_time(self.remaining_micros / MICROS_PER_SECOND)
    }

    /// The duration the timer is set to, in seconds.
    pub fn target_seconds(&self) -> (r: u64)
        ensures
            r == self@.target(),
    {
        to_seconds(self.target_minutes, self.target_seconds)
    }

    pub fn minutes_setting(&self) -> (r: u32)
        ensures
            r == self@.minutes,
    {
        self.target_minutes
    }

    pub fn seconds_setting(&self) -> (r: u32)
        ensures
            r == self@.seconds,
    {
        self.target_seconds
    }

    pub fn remaining_micros(&self) -> (r: u64)
        ensures
            r == self@.remaining,
    {
        self.remaining_micros
    }

    pub fn is_running(&self) -> (r: bool)
        ensures
            r == self@.running,
    {
        self.is_running
    }

    pub fn is_finished(&self) -> (r: bool)
        ensures
            r == self@.finished,
    {
        self.is_finished
    }
}

impl Default for Timer {
    fn default() -> (r: Timer)
        ensures
            r@ == TimerState::initial(),
    {
        Timer::new()
    }
}

} // verus!
