//! Notifications about the backend's lifecycle, as they are handed to the
//! user interface: one per state transition or terminal error.

use vstd::prelude::*;

verus! {

#[derive(Debug, Clone, PartialEq, Eq)]
pub enum Notification {
    /// The backend has started and is healthy.
    Ready,
    /// The backend is running but its health checks fail.
    Unhealthy,
    /// The backend has stopped.
    Stopped,
    /// The backend crashed, with the reason.
    Crashed(String),
    /// An error occurred, with its message.
    Error(String),
}

/// What a `Notification` holds, with texts as character sequences.
pub enum NotificationView {
    Ready,
    Unhealthy,
    Stopped,
    Crashed(Seq<char>),
    Error(Seq<char>),
}

impl View for Notification {
    type V = NotificationView;

    open spec fn view(&self) -> NotificationView {
        match *self {
            Notification::Ready => NotificationView::Ready,
            Notification::Unhealthy => NotificationView::Unhealthy,
            Notification::Stopped => NotificationView::Stopped,
            Notification::Crashed(reason) => NotificationView::Crashed(reason@),
            Notification::Error(error) => NotificationView::Error(error@),
        }
    }
}

impl NotificationView {
    /// The name of the event under which the notification is emitted.
    pub open spec fn event_name_text(self) -> Seq<char> {
        match self {
            NotificationView::Ready => "backend:ready"@,
            NotificationView::Unhealthy => "backend:unhealthy"@,
            NotificationView::Stopped => "backend:stopped"@,
            NotificationView::Crashed(_) => "backend:crashed"@,
            NotificationView::Error(_) => "backend:error"@,
        }
    }

    /// The `status` member of the event's payload.
    pub open spec fn status_text(self) -> Seq<char> {
        match self {
            NotificationView::Ready => "ready"@,
            NotificationView::Unhealthy => "unhealthy"@,
            NotificationView::Stopped => "stopped"@,
            NotificationView::Crashed(_) => "crashed"@,
            NotificationView::Error(_) => "error"@,
        }
    }

    /// The `message` member of the event's payload.
    pub open spec fn message_text(self) -> Seq<char> {
        match self {
            NotificationView::Ready => "Backend is operational"@,
            NotificationView::Unhealthy => "Backend is running but health checks are failing"@,
            NotificationView::Stopped => "Backend has stopped"@,
            NotificationView::Crashed(reason) => "Backend crashed: "@ + reason,
            NotificationView::Error(error) => "Backend error: "@ + error,
        }
    }

    /// The member that carries the cause, as its key and its text: `reason`
    /// for a crash, `error` for an error, none otherwise.
    pub open spec fn cause(self) -> Option<(Seq<char>, Seq<char>)> {
        match self {
            NotificationView::Crashed(reason) => Some(("reason"@, reason)),
            NotificationView::Error(error) => Some(("error"@, error)),
            _ => None,
        }
    }
}

impl Notification {
    /// The name of the event under which the notification is emitted.
    pub fn event_name(&self) -> (r: &'static str)
        ensures
            r@ == self@.event_name_text(),
    {
        match self {
            Notification::Ready => "backend:ready",
            Notification::Unhealthy => "backend:unhealthy",
            Notification::Stopped => "backend:stopped",
            Notification::Crashed(_) => "backend:crashed",
            Notification::Error(_) => "backend:error",
        }
    }

    /// The `status` member of the event's payload.
    pub fn status(&self) -> (r: &'static str)
        ensures
            r@ == self@.status_text(),
    {
        match self {
            Notification::Ready => "ready",
            Notification::Unhealthy => "unhealthy",
            Notification::Stopped => "stopped",
            Notification::Crashed(_) => "crashed",
            Notification::Error(_) => "error",
        }
    }

    /// The `message` member of the event's payload.
    pub fn message(&self) -> (r: String)
        ensures
            r@ == self@.message_text(),
    {
        match self {
            Notification::Ready => String::from_str("Backend is operational"),
            Notification::Unhealthy => String::from_str(
                "Backend is running but health checks are failing",
            ),
            Notification::Stopped => String::from_str("Backend has stopped"),
            Notification::Crashed(reason) => String::from_str("Backend crashed: ").concat(
                reason.as_str(),
            ),
            Notification::Error(error) => String::from_str("Backend error: ").concat(
                error.as_str(),
            ),
        }
    }

    /// The member that carries the cause, as its key and its text.
    pub fn cause(&self) -> (r: Option<(&'static str, String)>)
        ensures
            r is Some <==> self@.cause() is Some,
            r is Some ==> (r->Some_0.0@, r->Some_0.1@) == self@.cause()->Some_0,
    {
        match self {
            Notification::Crashed(reason) => Some(("reason", reason.clone())),
            Notification::Error(error) => Some(("error", error.clone())),
            _ => None,
        }
    }
}

} // verus!
