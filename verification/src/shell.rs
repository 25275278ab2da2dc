//! The window that waits for notifications: what it looks like, and what it
//! does from its creation to its end.
//!
//! Nothing is shown or asked from here. Each step takes what happened and
//! says what to do next; whoever drives the window does it and comes back
//! with what happened then.

use crate::access::{not_granted_message, request_access, AccessError, AccessStatus};
use crate::host::HostError;
use crate::subscription::{
    SubscriptionAction, SubscriptionError, SubscriptionEvent, SubscriptionHandle,
};
use vstd::prelude::*;
use vstd::string::*;

verus! {

/// The width of the window.
pub const WINDOW_WIDTH: u32 = 300;

/// The height of the window.
pub const WINDOW_HEIGHT: u32 = 150;

/// The space between the label and the window's edges.
pub const LABEL_MARGIN: u32 = 10;

/// The status with which the process ends after an error.
pub const FAILURE_EXIT_STATUS: u32 = 1;

/// Where the window's one label stands and how large it is.
#[derive(Clone, Copy, Debug, PartialEq, Eq, Structural)]
pub struct LabelFrame {
    pub x: u32,
    pub y: u32,
    pub width: u32,
    pub height: u32,
}

/// The label fills the window but for the margin on each side.
pub fn label_frame() -> (r: LabelFrame)
    ensures
        r.x == LABEL_MARGIN,
        r.y == LABEL_MARGIN,
        r.x + r.width + LABEL_MARGIN == WINDOW_WIDTH,
        r.y + r.height + LABEL_MARGIN == WINDOW_HEIGHT,
{
    LabelFrame {
        x: LABEL_MARGIN,
        y: LABEL_MARGIN,
        width: WINDOW_WIDTH - 2 * LABEL_MARGIN,
        height: WINDOW_HEIGHT - 2 * LABEL_MARGIN,
    }
}

/// The window's title.
pub fn window_title() -> (r: &'static str)
    ensures
        r@ == "Skal"@,
{
    "Skal"
}

/// The text of the window's label.
pub fn label_text() -> (r: &'static str)
    ensures
        r@ == "Waiting for notifications..."@,
{
    "Waiting for notifications..."
}

/// The title of the dialog that tells of the access.
pub fn acknowledgement_title() -> (r: &'static str)
    ensures
        r@ == "Access granted"@,
{
    "Access granted"
}

/// The text of the dialog that tells of the access.
pub fn acknowledgement_text() -> (r: &'static str)
    ensures
        r@ == "Ready to receive notifications"@,
{
    "Ready to receive notifications"
}

/// The title of the dialog that tells of an error.
pub fn error_title() -> (r: &'static str)
    ensures
        r@ == "Uncaught error"@,
{
    "Uncaught error"
}

/// An error that ends the window before it listens.
#[derive(Clone, Debug, PartialEq, Eq)]
pub enum StartupError {
    /// The request for access could not be made.
    AccessRequest(HostError),
    /// Access was not granted.
    Access(AccessError),
    /// The subscription did not come about.
    Subscription(SubscriptionError),
    /// The window's message loop failed.
    MessageLoop(HostError),
}

impl StartupError {
    /// The text that the error dialog shows.
    pub open spec fn message_text(self) -> Seq<char> {
        match self {
            StartupError::AccessRequest(cause) => cause.message@,
            StartupError::Access(_) => not_granted_message(),
            StartupError::Subscription(SubscriptionError::NoListener(cause)) => cause.message@,
            StartupError::Subscription(SubscriptionError::RegistrationFailed(cause)) => cause.message@,
            StartupError::MessageLoop(cause) => cause.message@,
        }
    }

    /// The text that the error dialog shows.
    pub fn message(&self) -> (r: String)
        ensures
            r@ == self.message_text(),
    {
        match self {
            StartupError::AccessRequest(cause) => cause.message.clone(),
            StartupError::Access(e) => String::from_str(e.message()),
            StartupError::Subscription(SubscriptionError::NoListener(cause)) => cause.message.clone(),
            StartupError::Subscription(SubscriptionError::RegistrationFailed(cause)) =>
                cause.message.clone(),
            StartupError::MessageLoop(cause) => cause.message.clone(),
        }
    }
}

/// What happened to the window.
#[derive(Debug, PartialEq, Eq)]
pub enum ShellEvent {
    /// The window was created.
    Created,
    /// The host answered the request for access.
    AccessResolved(AccessStatus),
    /// The request for access could not be made.
    AccessFailed(HostError),
    /// The dialog that tells of the access was closed.
    Acknowledged,
    /// The host answered for the subscription.
    Subscription(SubscriptionEvent),
    /// The window was closed.
    Closed,
    /// The window's message loop failed.
    LoopFailed(HostError),
}

/// What to do next for the window.
#[derive(Debug, PartialEq, Eq)]
pub enum ShellAction {
    /// Nothing.
    Idle,
    /// Ask the host for access to the notification center and wait for its answer.
    RequestAccess,
    /// Show the dialog that tells of the access and wait until it is closed.
    Acknowledge,
    /// Get the host's current listener and register the change handler with it.
    Register,
    /// Get the host's current listener and revoke `token` with it.
    Unregister { token: i64 },
    /// Tell that `token` could not be revoked and stays with the host.
    ReportLeak { token: i64, cause: HostError },
    /// Show the error in a dialog, then end the process with the failure status.
    Abort(StartupError),
}

/// The window and where it stands.
#[derive(Debug, PartialEq, Eq)]
pub enum ShellWindow {
    /// Not created yet.
    Starting,
    /// The host was asked for access.
    AwaitingAccess,
    /// Access is granted and the dialog that tells of it is up.
    Acknowledging,
    /// Access is granted and the window has its subscription.
    Running(SubscriptionHandle),
    /// The window is gone.
    Ended,
}

/// The window's action for an action of its subscription.
pub open spec fn shell_action(action: SubscriptionAction) -> ShellAction {
    match action {
        SubscriptionAction::Idle => ShellAction::Idle,
        SubscriptionAction::Register => ShellAction::Register,
        SubscriptionAction::Unregister { token } => ShellAction::Unregister { token },
        SubscriptionAction::ReportLeak { token, cause } => ShellAction::ReportLeak { token, cause },
        SubscriptionAction::Fail(e) => ShellAction::Abort(StartupError::Subscription(e)),
    }
}

/// The window after a step of its subscription: a subscription that did
/// not come about ends the window.
pub open spec fn shell_after(handle: SubscriptionHandle, action: SubscriptionAction) -> ShellWindow {
    if action is Fail {
        ShellWindow::Ended
    } else {
        ShellWindow::Running(handle)
    }
}

impl ShellWindow {
    /// The window and the action that follow `event`. An event that does
    /// not fit where the window stands changes nothing.
    pub open spec fn next(self, event: ShellEvent) -> (ShellWindow, ShellAction) {
        match (self, event) {
            (ShellWindow::Ended, _) => (ShellWindow::Ended, ShellAction::Idle),
            (_, ShellEvent::LoopFailed(cause)) => (
                ShellWindow::Ended,
                ShellAction::Abort(StartupError::MessageLoop(cause)),
            ),
            (ShellWindow::Starting, ShellEvent::Created) => (
                ShellWindow::AwaitingAccess,
                ShellAction::RequestAccess,
            ),
            (ShellWindow::AwaitingAccess, ShellEvent::AccessResolved(status)) => if status
                == AccessStatus::Allowed {
                (ShellWindow::Acknowledging, ShellAction::Acknowledge)
            } else {
                (
                    ShellWindow::Ended,
                    ShellAction::Abort(StartupError::Access(AccessError::NotGranted)),
                )
            },
            (ShellWindow::AwaitingAccess, ShellEvent::AccessFailed(cause)) => (
                ShellWindow::Ended,
                ShellAction::Abort(StartupError::AccessRequest(cause)),
            ),
            (ShellWindow::Acknowledging, ShellEvent::Acknowledged) => (
                ShellWindow::Running(SubscriptionHandle::Registering),
                ShellAction::Register,
            ),
            (ShellWindow::Running(handle), ShellEvent::Subscription(e)) => {
                let (following, action) = handle.next(e);
                (shell_after(following, action), shell_action(action))
            },
            (ShellWindow::Running(handle), ShellEvent::Closed) => {
                let (following, action) = handle.next(SubscriptionEvent::Release);
                (shell_after(following, action), shell_action(action))
            },
            (window, _) => (window, ShellAction::Idle),
        }
    }

    /// The actions that a run of events brings about, one for each event.
    pub open spec fn actions(self, events: Seq<ShellEvent>) -> Seq<ShellAction>
        decreases events.len(),
    {
        if events.len() == 0 {
            Seq::empty()
        } else {
            let (window, action) = self.next(events[0]);
            seq![action] + window.actions(events.skip(1))
        }
    }

    /// A window that is not created yet.
    pub fn new() -> (r: ShellWindow)
        ensures
            r == ShellWindow::Starting,
    {
        ShellWindow::Starting
    }

    /// Takes in `event` and says what to do next.
    pub fn step(self, event: ShellEvent) -> (r: (ShellWindow, ShellAction))
        ensures
            r == self.next(event),
    {
        match self {
            ShellWindow::Starting => match event {
                ShellEvent::Created => (ShellWindow::AwaitingAccess, ShellAction::RequestAccess),
                ShellEvent::LoopFailed(cause) => loop_failed(cause),
                _ => (ShellWindow::Starting, ShellAction::Idle),
            },
            ShellWindow::AwaitingAccess => match event {
                ShellEvent::AccessResolved(status) => match request_access(status) {
                    Ok(()) => (ShellWindow::Acknowledging, ShellAction::Acknowledge),
                    Err(e) => (ShellWindow::Ended, ShellAction::Abort(StartupError::Access(e))),
                },
                ShellEvent::AccessFailed(cause) => (
                    ShellWindow::Ended,
                    ShellAction::Abort(StartupError::AccessRequest(cause)),
                ),
                ShellEvent::LoopFailed(cause) => loop_failed(cause),
                _ => (ShellWindow::AwaitingAccess, ShellAction::Idle),
            },
            ShellWindow::Acknowledging => match event {
                ShellEvent::Acknowledged => {
                    let (handle, action) = SubscriptionHandle::new().step(
                        SubscriptionEvent::Subscribe,
                    );
                    settle(handle, action)
                },
                ShellEvent::LoopFailed(cause) => loop_failed(cause),
                _ => (ShellWindow::Acknowledging, ShellAction::Idle),
            },
            ShellWindow::Running(handle) => match event {
                ShellEvent::Subscription(e) => {
                    let (following, action) = handle.step(e);
                    settle(following, action)
                },
                ShellEvent::Closed => {
                    let (following, action) = handle.step(SubscriptionEvent::Release);
                    settle(following, action)
                },
                ShellEvent::LoopFailed(cause) => loop_failed(cause),
                _ => (ShellWindow::Running(handle), ShellAction::Idle),
            },
            ShellWindow::Ended => (ShellWindow::Ended, ShellAction::Idle),
        }
    }
}

/// The end of the window after a failure of its message loop.
fn loop_failed(cause: HostError) -> (r: (ShellWindow, ShellAction))
    ensures
        r == (ShellWindow::Ended, ShellAction::Abort(StartupError::MessageLoop(cause))),
{
    (ShellWindow::Ended, ShellAction::Abort(StartupError::MessageLoop(cause)))
}

/// Takes a step of the subscription over into the window.
fn settle(handle: SubscriptionHandle, action: SubscriptionAction) -> (r: (ShellWindow, ShellAction))
    ensures
        r == (shell_after(handle, action), shell_action(action)),
{
    match action {
        SubscriptionAction::Idle => (ShellWindow::Running(handle), ShellAction::Idle),
        SubscriptionAction::Register => (ShellWindow::Running(handle), ShellAction::Register),
        SubscriptionAction::Unregister { token } => (
            ShellWindow::Running(handle),
            ShellAction::Unregister { token },
        ),
        SubscriptionAction::ReportLeak { token, cause } => (
            ShellWindow::Running(handle),
            ShellAction::ReportLeak { token, cause },
        ),
        SubscriptionAction::Fail(e) => (
            ShellWindow::Ended,
            ShellAction::Abort(StartupError::Subscription(e)),
        ),
    }
}

/// A run of events brings about one action for each event.
pub proof fn lemma_one_action_per_event(window: ShellWindow, events: Seq<ShellEvent>)
    ensures
        window.actions(events).len() == events.len(),
    decreases events.len(),
{
    if events.len() > 0 {
        lemma_one_action_per_event(window.next(events[0]).0, events.skip(1));
    }
}

/// A window that has ended does nothing more.
pub proof fn lemma_ended_is_silent(events: Seq<ShellEvent>, k: int)
    requires
        0 <= k < events.len(),
    ensures
        ShellWindow::Ended.actions(events)[k] == ShellAction::Idle,
    decreases events.len(),
{
    lemma_one_action_per_event(ShellWindow::Ended, events.skip(1));
    if k > 0 {
        lemma_ended_is_silent(events.skip(1), k - 1);
    }
}

/// The window asks the host to register its handler only after the host
/// has answered the request for access with `Allowed`.
pub proof fn lemma_register_needs_access(window: ShellWindow, events: Seq<ShellEvent>, k: int)
    requires
        window is Starting || window is AwaitingAccess,
        0 <= k < events.len(),
        window.actions(events)[k] is Register,
    ensures
        exists|i: int|
            0 <= i < k && #[trigger] events[i] == ShellEvent::AccessResolved(AccessStatus::Allowed),
    decreases events.len(),
{
    let (following, action) = window.next(events[0]);
    let rest = events.skip(1);
    lemma_one_action_per_event(following, rest);
    assert(k > 0);
    assert(window.actions(events)[k] == following.actions(rest)[k - 1]);
    if following is Starting || following is AwaitingAccess {
        lemma_register_needs_access(following, rest, k - 1);
        let i: int = choose|i: int|
            0 <= i < k - 1 && #[trigger] rest[i] == ShellEvent::AccessResolved(AccessStatus::Allowed);
        assert(events[i + 1] == ShellEvent::AccessResolved(AccessStatus::Allowed));
    } else if following is Ended {
        lemma_ended_is_silent(rest, k - 1);
    } else {
        assert(events[0] == ShellEvent::AccessResolved(AccessStatus::Allowed));
    }
}

/// Once the window has shown an error and ended the process, it does
/// nothing more.
pub proof fn lemma_abort_is_final(window: ShellWindow, events: Seq<ShellEvent>, k: int, j: int)
    requires
        0 <= k < j < events.len(),
        window.actions(events)[k] is Abort,
    ensures
        window.actions(events)[j] == ShellAction::Idle,
    decreases events.len(),
{
    let (following, action) = window.next(events[0]);
    let rest = events.skip(1);
    lemma_one_action_per_event(following, rest);
    assert(window.actions(events)[j] == following.actions(rest)[j - 1]);
    if k == 0 {
        assert(following == ShellWindow::Ended);
        lemma_ended_is_silent(rest, j - 1);
    } else {
        assert(window.actions(events)[k] == following.actions(rest)[k - 1]);
        lemma_abort_is_final(following, rest, k - 1, j - 1);
    }
}

} // verus!
