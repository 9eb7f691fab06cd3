//! Decisions of the logic thread's session loop: poll the render thread's
//! error flag, sleep out the rest of the tick period, run a tick, and end
//! the session on a render failure, a failed tick or a request to exit.
//! The caller reads the clock, sleeps and runs the scheduler; it starts by
//! reading the error flag.

use vstd::prelude::*;

verus! {

/// What the logic thread reports.
#[derive(PartialEq, Eq, Structural, Copy, Clone, Debug)]
pub enum LogicEvent {
    /// The render thread's error flag was read.
    Polled { errored: bool },
    /// A tick completed in `elapsed_ms` milliseconds; `exit` if the game
    /// asked to end.
    TickDone { elapsed_ms: u64, exit: bool },
    /// A tick returned an error.
    TickFailed,
}

/// What the logic thread is to do next.
#[derive(PartialEq, Eq, Structural, Copy, Clone, Debug)]
pub enum LogicAction {
    /// Sleep `ms` milliseconds, then run one tick.
    Sleep { ms: u64 },
    /// Read the render thread's error flag. `overran` when the last tick
    /// took longer than the tick period: worth a warning, not an error.
    Poll { overran: bool },
    /// End the session: stop the render thread.
    Stop,
    /// The session has ended already; nothing to do.
    Finished,
}

/// The loop's state.
#[derive(PartialEq, Eq, Structural, Copy, Clone, Debug)]
pub struct LoopState {
    /// Length of a tick period, in milliseconds.
    pub target_ms: u64,
    /// How long to sleep before the next tick.
    pub sleep_ms: u64,
    /// Whether the last tick took longer than the period.
    pub overran: bool,
    /// Whether the session has ended.
    pub stopped: bool,
}

/// The loop after `event`, and what it asks for.
pub open spec fn step_spec(s: LoopState, event: LogicEvent) -> (LoopState, LogicAction) {
    if s.stopped {
        (s, LogicAction::Finished)
    } else {
        match event {
            LogicEvent::Polled { errored } => if errored {
                (LoopState { stopped: true, ..s }, LogicAction::Stop)
            } else {
                (s, LogicAction::Sleep { ms: s.sleep_ms })
            },
            LogicEvent::TickDone { elapsed_ms, exit } => {
                let overran = elapsed_ms > s.target_ms;
                let sleep_ms = if overran { s.sleep_ms } else { (s.target_ms - elapsed_ms) as u64 };
                if exit {
                    (LoopState { sleep_ms, overran, stopped: true, ..s }, LogicAction::Stop)
                } else {
                    (LoopState { sleep_ms, overran, ..s }, LogicAction::Poll { overran })
                }
            },
            LogicEvent::TickFailed => (LoopState { stopped: true, ..s }, LogicAction::Stop),
        }
    }
}

/// The logic thread's session loop.
pub struct CoreLoop {
    state: LoopState,
}

impl View for CoreLoop {
    type V = LoopState;

    closed spec fn view(&self) -> LoopState {
        self.state
    }
}

impl CoreLoop {
    /// A loop with tick period `target_ms`, which first sleeps a whole period.
    pub fn new(target_ms: u64) -> (r: CoreLoop)
        ensures
            r@ == (LoopState { target_ms, sleep_ms: target_ms, overran: false, stopped: false }),
    {
        CoreLoop { state: LoopState { target_ms, sleep_ms: target_ms, overran: false, stopped: false } }
    }

    /// Takes one event and decides what comes next.
    pub fn step(&mut self, event: LogicEvent) -> (r: LogicAction)
        ensures
            (final(self)@, r) == step_spec(old(self)@, event),
    {
        if self.state.stopped {
            return LogicAction::Finished;
        }
        match event {
            LogicEvent::Polled { errored } => {
                if errored {
                    self.state.stopped = true;
                    LogicAction::Stop
                } else {
                    LogicAction::Sleep { ms: self.state.sleep_ms }
                }
            },
            LogicEvent::TickDone { elapsed_ms, exit } => {
                let overran = elapsed_ms > self.state.target_ms;
                if !overran {
                    self.state.sleep_ms = self.state.target_ms - elapsed_ms;
                }
                self.state.overran = overran;
                if exit {
                    self.state.stopped = true;
                    LogicAction::Stop
                } else {
                    LogicAction::Poll { overran }
                }
            },
            LogicEvent::TickFailed => {
                self.state.stopped = true;
                LogicAction::Stop
            },
        }
    }
}

/// The session ends once: after the step that asks to stop, every later
/// step finds nothing to do and changes nothing.
pub proof fn lemma_stop_once(s: LoopState, first: LogicEvent, later: LogicEvent)
    ensures
        step_spec(s, first).1 == LogicAction::Stop ==> {
            let after = step_spec(s, first).0;
            &&& after.stopped
            &&& step_spec(after, later) == (after, LogicAction::Finished)
        },
        step_spec(s, first).1 == LogicAction::Stop ==> !s.stopped,
{
}

} // verus!
