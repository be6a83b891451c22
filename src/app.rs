//! The tab container: one clock, one stopwatch and one timer, of which only
//! the selected one is shown, takes commands and advances with the frames.

use vstd::prelude::*;
use crate::clock::Clock;
use crate::stopwatch::{Stopwatch, StopwatchState};
use crate::timer::{Timer, TimerState};

verus! {

#[derive(Clone, Copy, Debug, PartialEq, Eq, Structural)]
pub enum Tab {
    Clock,
    Stopwatch,
    Timer,
}

/// What the host reports in one step: a tab chosen, a button pressed, or a
/// frame of the given number of microseconds drawn.
#[derive(Clone, Copy, Debug, PartialEq, Eq, Structural)]
pub enum Event {
    SelectTab(Tab),
    StartStopwatch,
    StopStopwatch,
    ResetStopwatch,
    ConfigureTimer(u32, u32),
    StartTimer,
    StopTimer,
    Frame(u64),
}

pub struct AppState {
    pub tab: Tab,
    pub stopwatch: StopwatchState,
    pub timer: TimerState,
}

impl AppState {
    /// The clock tab selected, stopwatch and timer fresh.
    pub open spec fn initial() -> AppState {
        AppState {
            tab: Tab::Clock,
            stopwatch: StopwatchState::initial(),
            timer: TimerState::initial(),
        }
    }

    /// The stopwatch's commands and frames reach it only while its tab is
    /// selected, and likewise the timer's.
    pub open spec fn step(self, e: Event) -> AppState {
        match e {
            Event::SelectTab(t) => AppState { tab: t, ..self },
            Event::StartStopwatch => if self.tab == Tab::Stopwatch {
                AppState { stopwatch: self.stopwatch.start(), ..self }
            } else {
                self
            },
            Event::StopStopwatch => if self.tab == Tab::Stopwatch {
                AppState { stopwatch: self.stopwatch.stop(), ..self }
            } else {
                self
            },
            Event::ResetStopwatch => if self.tab == Tab::Stopwatch {
                AppState { stopwatch: self.stopwatch.reset(), ..self }
            } else {
                self
            },
            Event::ConfigureTimer(m, s) => if self.tab == Tab::Timer {
                AppState { timer: self.timer.configure(m as nat, s as nat), ..self }
            } else {
                self
            },
            Event::StartTimer => if self.tab == Tab::Timer {
                AppState { timer: self.timer.start(), ..self }
            } else {
                self
            },
            Event::StopTimer => if self.tab == Tab::Timer {
                AppState { timer: self.timer.stop(), ..self }
            } else {
                self
            },
            Event::Frame(d) => if self.tab == Tab::Stopwatch {
                AppState { stopwatch: self.stopwatch.tick(d as nat), ..self }
            } else if self.tab == Tab::Timer {
                AppState { timer: self.timer.tick(d as nat), ..self }
            } else {
                self
            },
        }
    }
}

/// A stopwatch or timer whose tab is not selected stays as it is, whatever
/// happens, frames included, until its tab is selected again; selecting a
/// tab changes neither.
pub proof fn lemma_hidden_views_frozen(a: AppState, e: Event)
    ensures
        a.tab != Tab::Stopwatch && !(e is SelectTab) ==> a.step(e).stopwatch == a.stopwatch,
        a.tab != Tab::Timer && !(e is SelectTab) ==> a.step(e).timer == a.timer,
        e is SelectTab ==> a.step(e).stopwatch == a.stopwatch && a.step(e).timer == a.timer,
{
}

/// A frame advances exactly the view that is selected.
pub proof fn lemma_frame_ticks_selected(a: AppState, d: u64)
    ensures
        a.tab == Tab::Stopwatch ==> a.step(Event::Frame(d)).stopwatch == a.stopwatch.tick(d as nat),
        a.tab == Tab::Timer ==> a.step(Event::Frame(d)).timer == a.timer.tick(d as nat),
        a.tab == Tab::Clock ==> a.step(Event::Frame(d)) == a,
{
}

pub struct App {
    clock: Clock,
    stopwatch: Stopwatch,
    timer: Timer,
    current_tab: Tab,
}

impl View for App {
    type V = AppState;

    closed spec fn view(&self) -> AppState {
        AppState { tab: self.current_tab, stopwatch: self.stopwatch@, timer: self.timer@ }
    }
}

impl App {
    pub fn new() -> (r: App)
        ensures
            r@ == AppState::initial(),
    {
        App {
            clock: Clock::new(),
            stopwatch: Stopwatch::new(),
            timer: Timer::new(),
            current_tab: Tab::Clock,
        }
    }

    /// Takes one event from the host.
    pub fn handle(&mut self, e: Event)
        ensures
            final(self)@ == old(self)@.step(e),
    {
        match e {
            Event::SelectTab(t) => {
                self.current_tab = t;
            },
            Event::StartStopwatch => if self.current_tab == Tab::Stopwatch {
                self.stopwatch.start();
            },
            Event::StopStopwatch => if self.current_tab == Tab::Stopwatch {
                self.stopwatch.stop();
            },
            Event::ResetStopwatch => if self.current_tab == Tab::Stopwatch {
                self.stopwatch.reset();
            },
            Event::ConfigureTimer(m, s) => if self.current_tab == Tab::Timer {
                self.timer.configure(m, s);
            },
            Event::StartTimer => if self.current_tab == Tab::Timer {
                self.timer.start();
            },
            Event::StopTimer => if self.current_tab == Tab::Timer {
                self.timer.stop();
            },
            Event::Frame(d) => if self.current_tab == Tab::Stopwatch {
                self.stopwatch.tick(d);
            } else if self.current_tab == Tab::Timer {
                self.timer.tick(d);
            },
        }
    }

    pub fn current_tab(&self) -> (r: Tab)
        ensures
            r == self@.tab,
    {
        self.current_tab
    }

    pub fn clock(&self) -> (r: &Clock) {
        &self.clock
    }

    pub fn stopwatch(&self) -> (r: &Stopwatch)
        ensures
            r@ == self@.stopwatch,
    {
        &self.stopwatch
    }

    pub fn timer(&self) -> (r: &Timer)
        ensures
            r@ == self@.timer,
    {
        &self.timer
    }
}

impl Default for App {
    fn default() -> (r: App)
        ensures
            r@ == AppState::initial(),
    {
        App::new()
    }
}

} // verus!
