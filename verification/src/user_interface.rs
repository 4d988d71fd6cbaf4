//! The life of the event loop: which notification of the windowing shell
//! leads to which action, and when the loop ends.
//!
//! The shell performs the actions. It hands a pointer's movement over as the
//! bit patterns of two 64-bit IEEE-754 numbers, which are passed on as they
//! are.

use vstd::prelude::*;
use crate::renderer::FrameDecision;

verus! {

/// Where the loop stands.
#[derive(Clone, Copy, Debug, PartialEq, Eq, Structural)]
pub enum Lifecycle {
    /// No window yet, and nothing to draw with.
    Uninitialized,
    /// The renderer and the overlay exist; frames are drawn.
    Running,
    /// The loop was asked to end. No frame is drawn any more.
    Exiting,
}

/// A key, as far as the loop tells keys apart.
#[derive(Clone, Copy, Debug, PartialEq, Eq, Structural)]
pub enum Key {
    Escape,
    Other,
}

/// What the windowing shell reports.
#[derive(Clone, Copy, Debug, PartialEq, Eq, Structural)]
pub enum Notification {
    /// The surface can be created.
    Resumed,
    /// The window has a new inner size.
    Resized { width: u32, height: u32 },
    /// The user asked to close the window.
    CloseRequested,
    /// The window was destroyed.
    Destroyed,
    /// A key went down.
    KeyPressed(Key),
    /// The pointer was dragged by `dx` and `dy`.
    PointerDelta { dx: u64, dy: u64 },
    /// The window wants its contents drawn.
    RedrawRequested,
    /// The shell has handed out all pending events and is about to wait.
    AboutToWait,
    /// The application was suspended.
    Suspended,
    /// The system is short of memory.
    MemoryWarning,
}

/// What the shell is to do next.
#[derive(Clone, Copy, Debug, PartialEq, Eq, Structural)]
pub enum Action {
    /// Nothing.
    Nothing,
    /// Create the window, the renderer and the overlay.
    CreateContext,
    /// Hand the new size to the renderer and the camera.
    Resize { width: u32, height: u32 },
    /// Orbit the camera by the given drag.
    Orbit { dx: u64, dy: u64 },
    /// Run the sequence of one frame.
    DrawFrame,
    /// Ask the window for a redraw.
    RequestRedraw,
    /// End the loop.
    Exit,
}

/// Whether the notification ends the loop: the window is closed or gone, the
/// escape key went down, the application was suspended or memory is short.
pub open spec fn ends_loop(notification: Notification) -> bool {
    match notification {
        Notification::CloseRequested => true,
        Notification::Destroyed => true,
        Notification::KeyPressed(Key::Escape) => true,
        Notification::Suspended => true,
        Notification::MemoryWarning => true,
        _ => false,
    }
}

/// The state after a notification, and the action it leads to.
pub open spec fn step(state: Lifecycle, notification: Notification) -> (Lifecycle, Action) {
    match state {
        Lifecycle::Exiting => (Lifecycle::Exiting, Action::Nothing),
        Lifecycle::Uninitialized => if ends_loop(notification) {
            (Lifecycle::Exiting, Action::Exit)
        } else if notification == Notification::Resumed {
            (Lifecycle::Running, Action::CreateContext)
        } else {
            (Lifecycle::Uninitialized, Action::Nothing)
        },
        Lifecycle::Running => if ends_loop(notification) {
            (Lifecycle::Exiting, Action::Exit)
        } else {
            match notification {
                Notification::Resized { width, height } => (
                    Lifecycle::Running,
                    Action::Resize { width, height },
                ),
                Notification::PointerDelta { dx, dy } => (
                    Lifecycle::Running,
                    Action::Orbit { dx, dy },
                ),
                Notification::RedrawRequested => (Lifecycle::Running, Action::DrawFrame),
                Notification::AboutToWait => (Lifecycle::Running, Action::RequestRedraw),
                _ => (Lifecycle::Running, Action::Nothing),
            }
        },
    }
}

/// The state after a frame ended with the given decision, and the action it
/// leads to: a halted frame ends a running loop, anything else changes
/// nothing.
pub open spec fn after_frame(state: Lifecycle, decision: FrameDecision) -> (Lifecycle, Action) {
    if state == Lifecycle::Running && decision == FrameDecision::Halt {
        (Lifecycle::Exiting, Action::Exit)
    } else {
        (state, Action::Nothing)
    }
}

/// The state after a run of notifications.
pub open spec fn state_after(state: Lifecycle, trace: Seq<Notification>) -> Lifecycle
    decreases trace.len(),
{
    if trace.len() == 0 {
        state
    } else {
        step(state_after(state, trace.drop_last()), trace.last()).0
    }
}

/// The action that the last notification of a run leads to.
pub open spec fn last_action(state: Lifecycle, trace: Seq<Notification>) -> Action
    recommends
        trace.len() > 0,
{
    step(state_after(state, trace.drop_last()), trace.last()).1
}

/// How far the loop has come: 0 before it runs, 1 while it runs, 2 once it
/// is ending.
pub open spec fn progress(state: Lifecycle) -> int {
    match state {
        Lifecycle::Uninitialized => 0,
        Lifecycle::Running => 1,
        Lifecycle::Exiting => 2,
    }
}

/// How the process ends.
#[derive(Clone, Copy, Debug, PartialEq, Eq, Structural)]
pub enum ExitStatus {
    Success,
    Failure,
}

/// The event loop's state machine.
#[derive(Clone, Copy, Debug)]
pub struct UserInterface {
    state: Lifecycle,
    startup_failed: bool,
}

impl UserInterface {
    /// Where the loop stands.
    pub closed spec fn lifecycle(&self) -> Lifecycle {
        self.state
    }

    /// Whether the window, the renderer or the overlay could not be created.
    pub closed spec fn startup_failed(&self) -> bool {
        self.startup_failed
    }

    /// A loop that has not started.
    pub fn new() -> (ui: UserInterface)
        ensures
            ui.lifecycle() == Lifecycle::Uninitialized,
            !ui.startup_failed(),
    {
        UserInterface { state: Lifecycle::Uninitialized, startup_failed: false }
    }

    /// How the process ends: in failure where the window, the renderer or
    /// the overlay could not be created, in success otherwise.
    pub fn exit_status(&self) -> (status: ExitStatus)
        ensures
            status == if self.startup_failed() {
                ExitStatus::Failure
            } else {
                ExitStatus::Success
            },
    {
        if self.startup_failed {
            ExitStatus::Failure
        } else {
            ExitStatus::Success
        }
    }

    /// Takes the news that the window, the renderer or the overlay could not
    /// be created. A loop that is not ending yet ends, and in failure: there
    /// is no running without them. A loop that is ending already goes on
    /// ending as it was.
    pub fn creation_failed(&mut self) -> (action: Action)
        ensures
            final(self).lifecycle() == Lifecycle::Exiting,
            old(self).lifecycle() == Lifecycle::Exiting ==> action == Action::Nothing,
            old(self).lifecycle() == Lifecycle::Exiting ==> final(self).startup_failed() == old(
                self,
            ).startup_failed(),
            old(self).lifecycle() != Lifecycle::Exiting ==> action == Action::Exit,
            old(self).lifecycle() != Lifecycle::Exiting ==> final(self).startup_failed(),
    {
        match self.state {
            Lifecycle::Exiting => Action::Nothing,
            _ => {
                self.state = Lifecycle::Exiting;
                self.startup_failed = true;
                Action::Exit
            },
        }
    }

    /// Where the loop stands.
    pub fn state(&self) -> (state: Lifecycle)
        ensures
            state == self.lifecycle(),
    {
        self.state
    }

    /// Takes a notification of the shell and says what the shell is to do.
    pub fn notify(&mut self, notification: Notification) -> (action: Action)
        ensures
            (final(self).lifecycle(), action) == step(old(self).lifecycle(), notification),
            final(self).startup_failed() == old(self).startup_failed(),
    {
        let ends: bool = match notification {
            Notification::CloseRequested => true,
            Notification::Destroyed => true,
            Notification::KeyPressed(Key::Escape) => true,
            Notification::Suspended => true,
            Notification::MemoryWarning => true,
            _ => false,
        };
        match self.state {
            Lifecycle::Exiting => Action::Nothing,
            Lifecycle::Uninitialized => {
                if ends {
                    self.state = Lifecycle::Exiting;
                    Action::Exit
                } else {
                    match notification {
                        Notification::Resumed => {
                            self.state = Lifecycle::Running;
                            Action::CreateContext
                        },
                        _ => Action::Nothing,
                    }
                }
            },
            Lifecycle::Running => {
                if ends {
                    self.state = Lifecycle::Exiting;
                    Action::Exit
                } else {
                    match notification {
                        Notification::Resized { width, height } => Action::Resize { width, height },
                        Notification::PointerDelta { dx, dy } => Action::Orbit { dx, dy },
                        Notification::RedrawRequested => Action::DrawFrame,
                        Notification::AboutToWait => Action::RequestRedraw,
                        _ => Action::Nothing,
                    }
                }
            },
        }
    }

    /// Takes the decision a frame ended with. A halted frame ends a running
    /// loop; after any other the loop goes on as it was.
    pub fn frame_finished(&mut self, decision: FrameDecision) -> (action: Action)
        ensures
            (final(self).lifecycle(), action) == after_frame(old(self).lifecycle(), decision),
            final(self).startup_failed() == old(self).startup_failed(),
    {
        match (self.state, decision) {
            (Lifecycle::Running, FrameDecision::Halt) => {
                self.state = Lifecycle::Exiting;
                Action::Exit
            },
            _ => Action::Nothing,
        }
    }
}

/// Once the loop is ending it stays so, and no notification leads to any
/// action.
pub proof fn lemma_exiting_is_terminal(notification: Notification)
    ensures
        step(Lifecycle::Exiting, notification) == (Lifecycle::Exiting, Action::Nothing),
{
}

/// A frame is drawn only on a request for a redraw that reaches a running
/// loop, and such a request always draws one.
pub proof fn lemma_draws_only_while_running(state: Lifecycle, notification: Notification)
    ensures
        step(state, notification).1 == Action::DrawFrame <==> state == Lifecycle::Running
            && notification == Notification::RedrawRequested,
{
}

/// The loop never goes back: a notification or the end of a frame leaves it
/// where it is or takes it further.
pub proof fn lemma_never_goes_back(
    state: Lifecycle,
    notification: Notification,
    decision: FrameDecision,
)
    ensures
        progress(state) <= progress(step(state, notification).0),
        progress(state) <= progress(after_frame(state, decision).0),
{
}

/// After a run of notifications that starts in a loop that is ending, the
/// loop is still ending, and the last of them led to no action.
pub proof fn lemma_no_frame_after_exit(trace: Seq<Notification>)
    ensures
        state_after(Lifecycle::Exiting, trace) == Lifecycle::Exiting,
        trace.len() > 0 ==> last_action(Lifecycle::Exiting, trace) == Action::Nothing,
    decreases trace.len(),
{
    if trace.len() > 0 {
        lemma_no_frame_after_exit(trace.drop_last());
    }
}

/// A frame dropped for a passing failure leaves a running loop running, so
/// the next request for a redraw draws again.
pub proof fn lemma_skipped_frame_is_retried(decision: FrameDecision)
    requires
        decision != FrameDecision::Halt,
    ensures
        after_frame(Lifecycle::Running, decision) == (Lifecycle::Running, Action::Nothing),
        step(after_frame(Lifecycle::Running, decision).0, Notification::RedrawRequested) == (
            Lifecycle::Running,
            Action::DrawFrame,
        ),
{
}

} // verus!
