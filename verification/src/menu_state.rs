//! The tray menu as the controller sees it: which title and status text are
//! shown, and which menu item means "quit".
//!
//! Building the platform menu and pushing text to the tray icon are the
//! display adapter's work, outside the library.  This model decides what the
//! display must show for each status and owns the quit control's identity;
//! the adapter only copies `title` and `status_text` to the screen.
use crate::server_status::ServerStatus;
use crate::server_status::StatusView;
use crate::user_event::EventView;
use crate::user_event::UserEvent;
use vstd::prelude::*;
use vstd::string::StringExecFns;

verus! {

/// The tray title shown for a status: a one-character marker, or none while
/// the server is running.
pub open spec fn spec_status_title(status: StatusView) -> Option<Seq<char>> {
    match status {
        StatusView::StartUp => Some("?"@),
        StatusView::Running => None,
        StatusView::Stopped(_) => Some("X"@),
        StatusView::Error(_) => Some("E"@),
    }
}

/// The status menu item's text for a status.
pub open spec fn spec_status_text(status: StatusView) -> Seq<char> {
    match status {
        StatusView::StartUp => "In startup"@,
        StatusView::Running => "Running"@,
        StatusView::Stopped(message) => message,
        StatusView::Error(message) => message,
    }
}

/// The mathematical shape of a [`MenuState`].
pub struct MenuView {
    pub quit_id: Seq<char>,
    pub title: Option<Seq<char>>,
    pub status_text: Seq<char>,
}

/// The menu and tray text the controller currently asks the display adapter
/// to show, together with the identity of the quit control.
pub struct MenuState {
    quit_id: String,
    title: Option<String>,
    status_text: String,
}

impl View for MenuState {
    type V = MenuView;

    closed spec fn view(&self) -> MenuView {
        MenuView {
            quit_id: self.quit_id@,
            title: match &self.title {
                Some(t) => Some(t@),
                None => None,
            },
            status_text: self.status_text@,
        }
    }
}

impl MenuState {
    /// A fresh menu: the status item reads `Starting Up`, the tray shows no
    /// title yet, and `quit_id` is the identifier of the quit menu item the
    /// display adapter created.
    pub fn new(quit_id: String) -> (menu: Self)
        ensures
            menu@.quit_id == quit_id@,
            menu@.title is None,
            menu@.status_text == "Starting Up"@,
    {
        MenuState { quit_id, title: None, status_text: String::from_str("Starting Up") }
    }

    /// Record `status` as what the tray must now show: the title and status
    /// text follow [`spec_status_title`] and [`spec_status_text`] exactly,
    /// and the quit control keeps its identity.
    pub fn update_tray_icon(&mut self, status: ServerStatus)
        ensures
            final(self)@.quit_id == old(self)@.quit_id,
            final(self)@.title == spec_status_title(status@),
            final(self)@.status_text == spec_status_text(status@),
    {
        match status {
            ServerStatus::StartUp => {
                self.title = Some(String::from_str("?"));
                self.status_text = String::from_str("In startup");
            },
            ServerStatus::Running => {
                self.title = None;
                self.status_text = String::from_str("Running");
            },
            ServerStatus::Stopped(message) => {
                self.title = Some(String::from_str("X"));
                self.status_text = message;
            },
            ServerStatus::Error(message) => {
                self.title = Some(String::from_str("E"));
                self.status_text = message;
            },
        }
    }

    /// Whether `event` is the user asking to quit: a menu event whose
    /// identifier is exactly the quit control's, whatever the current status.
    pub fn quit_matches(&self, event: UserEvent) -> (quit: bool)
        ensures
            quit == (event@ matches EventView::Menu(id) && id == self@.quit_id),
    {
        match event {
            UserEvent::Menu(id) => id == self.quit_id,
            _ => false,
        }
    }

    /// The title the tray must currently show, if any.
    pub fn title(&self) -> (title: &Option<String>)
        ensures
            title matches Some(t) ==> self@.title == Some(t@),
            title is None <==> self@.title is None,
    {
        &self.title
    }

    /// The text the status menu item must currently show.
    pub fn status_text(&self) -> (text: &String)
        ensures
            text@ == self@.status_text,
    {
        &self.status_text
    }
}

/// The ways building the platform menu can fail; the display adapter reports
/// them with the offending operation's message.
#[derive(Debug)]
pub enum MenuStateError {
    /// Appending an item to the menu failed.
    MenuError(String),
    /// Creating or updating the tray icon failed.
    TrayError(String),
}

} // verus!
