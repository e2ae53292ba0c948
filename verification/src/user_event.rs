//! The events delivered to the controller over the event channel.
use crate::server_status::ServerStatus;
use crate::server_status::StatusView;
use vstd::prelude::*;

verus! {

/// One event on the channel between the supervision loop, the platform tray,
/// and the controller.  Events are consumed in the order they were sent.
#[derive(Debug)]
pub enum UserEvent {
    /// A platform tray-icon event (click, hover); the controller ignores its
    /// payload, so none is carried here.
    TrayIcon,
    /// A menu item was activated; carries the item's identifier.
    Menu(String),
    /// The supervision loop reports a new status of the server task.
    ServerStatus(ServerStatus),
    /// The supervision loop has ended normally and will send nothing more.
    ServerExit,
}

/// The mathematical shape of a [`UserEvent`].
pub enum EventView {
    TrayIcon,
    Menu(Seq<char>),
    ServerStatus(StatusView),
    ServerExit,
}

impl View for UserEvent {
    type V = EventView;

    open spec fn view(&self) -> EventView {
        match self {
            UserEvent::TrayIcon => EventView::TrayIcon,
            UserEvent::Menu(id) => EventView::Menu(id@),
            UserEvent::ServerStatus(s) => EventView::ServerStatus(s@),
            UserEvent::ServerExit => EventView::ServerExit,
        }
    }
}

/// The views of a sequence of events, in the same order.
pub open spec fn events_view(events: Seq<UserEvent>) -> Seq<EventView> {
    events.map_values(|e: UserEvent| e@)
}

} // verus!
