//! The render loop: draw, wait for an event, decide, and again.
//!
//! Like the poller, the loop does nothing to the terminal itself. It holds
//! the action that its driver is to carry out, and on the driver's word of
//! how that went it names the next one. It begins with the terminal being
//! set up, then draws one frame before every receive, and once the quit key
//! has come it restores the terminal and ends. An action that fails ends the
//! session on the spot, with nothing restored.

use vstd::prelude::*;
use crate::event::{Event, InputEventResult, handle_input};

verus! {

/// The things that the loop has its driver do.
#[derive(Clone, Copy, Debug, PartialEq, Eq, Structural)]
pub enum Step {
    /// Put the terminal into raw mode.
    EnableRawMode,
    /// Set the poller going.
    StartPoller,
    /// Open the drawing surface.
    OpenTerminal,
    /// Clear the screen.
    ClearScreen,
    /// Draw one frame.
    Draw,
    /// Wait for the next event from the poller.
    Receive,
    /// Put the terminal back into cooked mode.
    DisableRawMode,
    /// Make the cursor visible again.
    ShowCursor,
}

/// How a session ended.
#[derive(Clone, Copy, Debug, PartialEq, Eq, Structural)]
pub enum Outcome {
    /// The user asked to quit, and the terminal is restored.
    Quit,
    /// The named step failed.
    Failed(Step),
}

/// What the driver is to do next.
#[derive(Clone, Copy, Debug, PartialEq, Eq, Structural)]
pub enum Action {
    /// Carry out the step and say how it went.
    Perform(Step),
    /// Leave, with this outcome.
    Exit(Outcome),
}

/// The driver's word on the step that it was given.
#[derive(Clone, Copy, Debug, PartialEq, Eq, Structural)]
pub enum Response {
    /// The step is done.
    Done,
    /// The step failed.
    Failed,
    /// The event that was received.
    Received(Event),
}

/// The loop's state: the action that is with the driver.
#[derive(Clone, Copy, Debug, PartialEq, Eq, Structural)]
pub struct RenderLoop {
    pub pending: Action,
}

impl Step {
    /// Whether `response` says that this step went well. A receive goes well
    /// when it brings an event, every other step when it is done.
    pub open spec fn went_well(self, response: Response) -> bool {
        match self {
            Step::Receive => response is Received,
            _ => response == Response::Done,
        }
    }

    /// The action that follows this step when `response` says that it went
    /// well.
    pub open spec fn successor(self, response: Response) -> Action {
        match self {
            Step::EnableRawMode => Action::Perform(Step::StartPoller),
            Step::StartPoller => Action::Perform(Step::OpenTerminal),
            Step::OpenTerminal => Action::Perform(Step::ClearScreen),
            Step::ClearScreen => Action::Perform(Step::Draw),
            Step::Draw => Action::Perform(Step::Receive),
            Step::Receive => match response {
                Response::Received(event) => match event.verdict() {
                    InputEventResult::Continue => Action::Perform(Step::Draw),
                    InputEventResult::Quit => Action::Perform(Step::DisableRawMode),
                },
                _ => Action::Exit(Outcome::Failed(Step::Receive)),
            },
            Step::DisableRawMode => Action::Perform(Step::ShowCursor),
            Step::ShowCursor => Action::Exit(Outcome::Quit),
        }
    }
}

impl Outcome {
    /// The status with which the process ends: zero when the user quit, one
    /// when a step failed.
    pub open spec fn status(self) -> int {
        match self {
            Outcome::Quit => 0,
            Outcome::Failed(_) => 1,
        }
    }

    /// Computes `status`.
    pub fn exit_code(&self) -> (code: u8)
        ensures
            code == self.status(),
    {
        match self {
            Outcome::Quit => 0,
            Outcome::Failed(_) => 1,
        }
    }
}

impl Action {
    /// The action that follows this one on `response`.
    ///
    /// A response that does not say that the step went well ends the session
    /// with that step as the one that failed. Once the session has ended
    /// nothing follows but the same end.
    pub open spec fn next(self, response: Response) -> Action {
        match self {
            Action::Perform(step) => if step.went_well(response) {
                step.successor(response)
            } else {
                Action::Exit(Outcome::Failed(step))
            },
            Action::Exit(outcome) => self,
        }
    }
}

impl RenderLoop {
    /// The state in which every session begins.
    pub open spec fn started() -> RenderLoop {
        RenderLoop { pending: Action::Perform(Step::EnableRawMode) }
    }

    /// The state that follows on `response`.
    pub open spec fn next(self, response: Response) -> RenderLoop {
        RenderLoop { pending: self.pending.next(response) }
    }

    /// Whether the session is still going.
    pub open spec fn running(self) -> bool {
        self.pending is Perform
    }

    /// A loop at its beginning.
    pub fn start() -> (session: RenderLoop)
        ensures
            session == RenderLoop::started(),
    {
        RenderLoop { pending: Action::Perform(Step::EnableRawMode) }
    }

    /// The action that the driver is to carry out.
    pub fn pending(&self) -> (action: Action)
        ensures
            action == self.pending,
    {
        self.pending
    }

    /// Whether the session is still going.
    pub fn is_running(&self) -> (running: bool)
        ensures
            running == self.running(),
    {
        match self.pending {
            Action::Perform(_) => true,
            Action::Exit(_) => false,
        }
    }

    /// Takes the driver's word on the pending action and returns the next
    /// action.
    pub fn step(&mut self, response: Response) -> (action: Action)
        ensures
            *final(self) == old(self).next(response),
            action == final(self).pending,
    {
        let next = match self.pending {
            Action::Exit(outcome) => Action::Exit(outcome),
            Action::Perform(step) => match (step, response) {
                (Step::EnableRawMode, Response::Done) => Action::Perform(Step::StartPoller),
                (Step::StartPoller, Response::Done) => Action::Perform(Step::OpenTerminal),
                (Step::OpenTerminal, Response::Done) => Action::Perform(Step::ClearScreen),
                (Step::ClearScreen, Response::Done) => Action::Perform(Step::Draw),
                (Step::Draw, Response::Done) => Action::Perform(Step::Receive),
                (Step::Receive, Response::Received(event)) => match handle_input(event) {
                    InputEventResult::Continue => Action::Perform(Step::Draw),
                    InputEventResult::Quit => Action::Perform(Step::DisableRawMode),
                },
                (Step::DisableRawMode, Response::Done) => Action::Perform(Step::ShowCursor),
                (Step::ShowCursor, Response::Done) => Action::Exit(Outcome::Quit),
                _ => Action::Exit(Outcome::Failed(step)),
            },
        };
        self.pending = next;
        next
    }
}

} // verus!
