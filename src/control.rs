//! Lifecycle of the render thread: starting, pausing and resuming, failure,
//! and stopping. The decisions live here; the thread, its lock and its
//! wake-ups are the caller's.

use vstd::prelude::*;

verus! {

/// The shared flags of a render thread.
#[derive(PartialEq, Eq, Structural, Copy, Clone, Debug)]
pub struct ControlState {
    /// The thread was started.
    pub started: bool,
    /// Frames are wanted (false while the window is out of focus).
    pub enabled: bool,
    /// A stop was requested.
    pub stopped: bool,
    /// Rendering failed fatally.
    pub errored: bool,
    /// The thread is paused, waiting to be enabled.
    pub waiting: bool,
}

/// What the render loop does next.
#[derive(PartialEq, Eq, Structural, Copy, Clone, Debug)]
pub enum LoopStep {
    /// Leave the loop.
    Exit,
    /// Block until woken, then ask again.
    Wait,
    /// Render one tick; first reset the frame-timing statistics when
    /// `reset_stats` holds, that is when coming out of a pause.
    Render { reset_stats: bool },
}

/// What the caller of a stop is to do.
#[derive(PartialEq, Eq, Structural, Copy, Clone, Debug)]
pub enum StopAction {
    /// Wake the thread and join it.
    Join,
    /// Nothing: the thread never ran, or an earlier stop joins it.
    Done,
}

/// Why a lifecycle request was refused.
#[derive(PartialEq, Eq, Structural, Copy, Clone, Debug)]
pub enum ControlError {
    /// The thread was started before, or stopped.
    AlreadyStarted,
}

pub open spec fn start_spec(s: ControlState) -> (ControlState, Result<(), ControlError>) {
    if s.started || s.stopped {
        (s, Err(ControlError::AlreadyStarted))
    } else {
        (ControlState { started: true, ..s }, Ok(()))
    }
}

pub open spec fn enabled_spec(s: ControlState, state: bool) -> ControlState {
    ControlState { enabled: state, ..s }
}

pub open spec fn failed_spec(s: ControlState) -> ControlState {
    ControlState { errored: true, ..s }
}

pub open spec fn stop_spec(s: ControlState) -> (ControlState, StopAction) {
    if s.stopped {
        (s, StopAction::Done)
    } else if s.started {
        (ControlState { stopped: true, ..s }, StopAction::Join)
    } else {
        (ControlState { stopped: true, ..s }, StopAction::Done)
    }
}

pub open spec fn next_step_spec(s: ControlState) -> (ControlState, LoopStep) {
    if s.stopped || s.errored {
        (s, LoopStep::Exit)
    } else if !s.enabled {
        (ControlState { waiting: true, ..s }, LoopStep::Wait)
    } else {
        (ControlState { waiting: false, ..s }, LoopStep::Render { reset_stats: s.waiting })
    }
}

/// The flags of one render thread.
pub struct RenderControl {
    state: ControlState,
}

impl View for RenderControl {
    type V = ControlState;

    closed spec fn view(&self) -> ControlState {
        self.state
    }
}

impl RenderControl {
    /// Not started, not enabled, not stopped, not errored.
    pub fn new() -> (r: RenderControl)
        ensures
            r@ == (ControlState { started: false, enabled: false, stopped: false, errored: false, waiting: false }),
    {
        RenderControl {
            state: ControlState { started: false, enabled: false, stopped: false, errored: false, waiting: false },
        }
    }

    /// Records that the thread starts; refused when it was started or
    /// stopped before.
    pub fn start(&mut self) -> (r: Result<(), ControlError>)
        ensures
            (final(self)@, r) == start_spec(old(self)@),
    {
        if self.state.started || self.state.stopped {
            Err(ControlError::AlreadyStarted)
        } else {
            self.state.started = true;
            Ok(())
        }
    }

    /// Whether frames should be produced; the caller wakes the thread.
    pub fn enabled(&mut self, state: bool)
        ensures
            final(self)@ == enabled_spec(old(self)@, state),
    {
        self.state.enabled = state;
    }

    /// Whether rendering failed fatally.
    pub fn errored(&self) -> (r: bool)
        ensures
            r == self@.errored,
    {
        self.state.errored
    }

    /// Records a fatal rendering failure; the loop exits at its next step.
    pub fn render_failed(&mut self)
        ensures
            final(self)@ == failed_spec(old(self)@),
    {
        self.state.errored = true;
    }

    /// Requests a stop. Only the first request of a started thread is told
    /// to join it; every later one has nothing to do.
    pub fn stop(&mut self) -> (r: StopAction)
        ensures
            (final(self)@, r) == stop_spec(old(self)@),
    {
        if self.state.stopped {
            StopAction::Done
        } else {
            self.state.stopped = true;
            if self.state.started {
                StopAction::Join
            } else {
                StopAction::Done
            }
        }
    }

    /// Decides the render loop's next step.
    pub fn next_step(&mut self) -> (r: LoopStep)
        ensures
            (final(self)@, r) == next_step_spec(old(self)@),
    {
        if self.state.stopped || self.state.errored {
            LoopStep::Exit
        } else if !self.state.enabled {
            self.state.waiting = true;
            LoopStep::Wait
        } else {
            let reset_stats = self.state.waiting;
            self.state.waiting = false;
            LoopStep::Render { reset_stats }
        }
    }
}

/// Disabling pauses the loop for as long as it stays disabled, with no frame
/// rendered; enabling again resumes rendering, with reset statistics, and
/// with no new start.
pub proof fn lemma_pause_and_resume(s: ControlState)
    requires
        !s.stopped,
        !s.errored,
    ensures
        ({
            let paused = next_step_spec(enabled_spec(s, false));
            let still = next_step_spec(paused.0);
            let resumed = next_step_spec(enabled_spec(still.0, true));
            &&& paused.1 == LoopStep::Wait
            &&& still.1 == LoopStep::Wait
            &&& still.0 == paused.0
            &&& resumed.1 == LoopStep::Render { reset_stats: true }
            &&& resumed.0.started == s.started
        }),
{
}

/// Stopping twice is harmless: neither request fails, and at most the first
/// one joins the thread.
pub proof fn lemma_stop_twice_joins_once(s: ControlState)
    ensures
        ({
            let first = stop_spec(s);
            let second = stop_spec(first.0);
            &&& second.1 == StopAction::Done
            &&& second.0 == first.0
            &&& first.1 == StopAction::Join <==> (s.started && !s.stopped)
        }),
{
}

} // verus!
