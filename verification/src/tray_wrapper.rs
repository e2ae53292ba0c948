//! The controller: the owner of the supervised run's lifecycle.
//!
//! The host event loop drives it: once, when the loop has actually started,
//! with the freshly built menu (`handle_start`), and then with every event
//! the channel delivers (`handle_user_event`).  The controller decides; the
//! host performs: it spawns the supervision loop with the factory it is
//! handed, copies menu text to the tray, shuts the execution context down
//! within the configured timeout, and exits the host loop.
use crate::icon::RgbaIcon;
use crate::icon::decoded_icon;
use crate::menu_state::MenuState;
use crate::menu_state::MenuView;
use crate::menu_state::spec_status_text;
use crate::menu_state::spec_status_title;
use crate::server_generator::FactorySlot;
use crate::server_status::ServerStatus;
use crate::server_status::StatusView;
use crate::user_event::EventView;
use crate::user_event::UserEvent;
use vstd::prelude::*;

verus! {

/// How many seconds a shutdown waits for in-flight work before the
/// execution context is terminated regardless.
pub const DEFAULT_SHUTDOWN_TIMEOUT_SECS: u64 = 10;

/// Where the controller stands in its lifecycle.
#[derive(Debug)]
pub enum ControllerPhase {
    /// The host loop has not started yet; no menu exists.
    Uninitialized,
    /// The menu is built and the supervision loop has been handed the
    /// factory.
    Active,
    /// A terminal event or a quit request arrived; the execution context is
    /// being drained.
    ShuttingDown,
    /// The host loop exits; nothing runs any more.
    Terminated,
}

/// What the host must do after the controller has seen the start of its
/// event loop.
pub enum StartOutcome<F> {
    /// Spawn the supervision loop on the background execution context with
    /// this factory, and show the menu's initial text.
    Supervise(F),
    /// Starting up failed; exit the host loop at once.
    AbortHost,
}

/// What the host must do after the controller consumed one event.
#[derive(Debug, PartialEq, Eq, Structural)]
pub enum UserAction {
    /// Shut the execution context down, waiting at most this many seconds,
    /// then exit the host loop and report termination back.
    Shutdown(u64),
    /// Copy the controller's current menu title and status text to the tray.
    Render,
    /// Nothing to do.
    Ignore,
}

/// The ways constructing the wrapper can fail.
#[derive(Debug)]
pub enum TrayWrapperError {
    /// The icon bytes are not a supported image.
    IconLoad,
    /// The platform refused the decoded icon.
    BadIcon,
    /// The platform menu could not be built.
    MenuError(String),
    /// The background execution context could not be created.
    RunTime(String),
}

/// Whether `event` reports the supervised task's terminal failure: the
/// `Error` status that ends a run, after which the supervision loop emits
/// nothing more and the host must come down.
pub open spec fn error_notice(event: EventView) -> bool {
    event matches EventView::ServerStatus(status) && status is Error
}

/// The main entry point: the controller of one supervised run.
pub struct TrayWrapper<F> {
    icon: RgbaIcon,
    menu_state: Option<MenuState>,
    phase: ControllerPhase,
    server_generator: FactorySlot<F>,
    shutdown_timeout_secs: u64,
}

impl<F> TrayWrapper<F> {
    /// The decoded icon.
    pub closed spec fn icon(self) -> RgbaIcon {
        self.icon
    }

    /// The menu model, once the host loop has started.
    pub closed spec fn menu_view(self) -> Option<MenuView> {
        match self.menu_state {
            Some(menu) => Some(menu@),
            None => None,
        }
    }

    /// The controller's lifecycle phase.
    pub closed spec fn phase(self) -> ControllerPhase {
        self.phase
    }

    /// The factory still waiting to be handed to a supervision loop, if any.
    pub closed spec fn factory_stored(self) -> Option<F> {
        self.server_generator.stored()
    }

    /// How many seconds a shutdown waits for in-flight work.
    pub closed spec fn shutdown_timeout(self) -> u64 {
        self.shutdown_timeout_secs
    }

    /// The controller's consistency: while it is active a menu exists, and
    /// before the host loop starts none does.
    pub open spec fn wf(self) -> bool {
        &&& self.phase() is Active ==> self.menu_view() is Some
        &&& self.phase() is Uninitialized ==> self.menu_view() is None
        &&& self.icon().wf()
    }

    /// Whether the controller still accepts work.
    pub open spec fn live(self) -> bool {
        self.phase() is Uninitialized || self.phase() is Active
    }

    /// Whether `event` is the user asking to quit: a menu event that matches
    /// the quit control's identity.  Before the menu exists no event can
    /// match, since the identity is only created with the menu.
    pub open spec fn quit_requested(self, event: EventView) -> bool {
        &&& self.menu_view() matches Some(menu)
        &&& event matches EventView::Menu(id)
        &&& id == menu.quit_id
    }

    /// Whether `event` asks for a coordinated shutdown: the supervision
    /// loop's exit notice, its terminal error status — after which the loop
    /// emits nothing more — or a quit request.
    pub open spec fn shutdown_requested(self, event: EventView) -> bool {
        event is ServerExit || error_notice(event) || self.quit_requested(event)
    }

    /// Construct the wrapper: decode the icon and store the factory in a
    /// take-once slot.  Succeeds exactly when the icon bytes decode.
    pub fn new(icon_data: &[u8], server_gen: F) -> (wrapper: Result<Self, TrayWrapperError>)
        ensures
            wrapper is Ok <==> decoded_icon(icon_data@) is Some,
            wrapper matches Ok(w) ==> {
                &&& w.wf()
                &&& w.phase() is Uninitialized
                &&& w.factory_stored() == Some(server_gen)
                &&& w.shutdown_timeout() == DEFAULT_SHUTDOWN_TIMEOUT_SECS
                &&& decoded_icon(icon_data@) == Some(
                    (w.icon().rgba(), w.icon().width(), w.icon().height()),
                )
            },
            wrapper matches Err(e) ==> e is IconLoad,
    {
        match RgbaIcon::decode(icon_data) {
            Some(icon) => Ok(
                TrayWrapper {
                    icon,
                    menu_state: None,
                    phase: ControllerPhase::Uninitialized,
                    server_generator: FactorySlot::new_with(server_gen),
                    shutdown_timeout_secs: DEFAULT_SHUTDOWN_TIMEOUT_SECS,
                },
            ),
            None => Err(TrayWrapperError::IconLoad),
        }
    }

    /// Choose how long a shutdown may wait for in-flight work.
    pub fn set_shutdown_timeout(&mut self, secs: u64)
        ensures
            final(self).shutdown_timeout() == secs,
            final(self).icon() == old(self).icon(),
            final(self).menu_view() == old(self).menu_view(),
            final(self).phase() == old(self).phase(),
            final(self).factory_stored() == old(self).factory_stored(),
            old(self).wf() ==> final(self).wf(),
    {
        self.shutdown_timeout_secs = secs;
    }

    /// The host loop has started.  `menu` is the model of the menu the
    /// display adapter just built, or `None` when building it failed, which
    /// is fatal.  On success the controller records the `StartUp` status on
    /// the menu, claims the factory from its slot — which can happen only
    /// once — and hands it out for the supervision loop.
    pub fn handle_start(&mut self, menu: Option<MenuState>) -> (outcome: StartOutcome<F>)
        requires
            old(self).wf(),
            old(self).phase() is Uninitialized,
        ensures
            final(self).wf(),
            final(self).icon() == old(self).icon(),
            final(self).shutdown_timeout() == old(self).shutdown_timeout(),
            menu is None ==> {
                &&& outcome is AbortHost
                &&& final(self).phase() is Terminated
                &&& final(self).factory_stored() == old(self).factory_stored()
                &&& final(self).menu_view() is None
            },
            menu is Some ==> {
                &&& final(self).factory_stored() is None
                &&& final(self).menu_view() matches Some(shown)
                &&& shown.quit_id == menu->0@.quit_id
                &&& shown.title == spec_status_title(StatusView::StartUp)
                &&& shown.status_text == spec_status_text(StatusView::StartUp)
            },
            old(self).factory_stored() matches Some(factory) ==> (menu is Some ==> {
                &&& outcome == StartOutcome::Supervise(factory)
                &&& final(self).phase() is Active
            }),
            menu is Some && old(self).factory_stored() is None ==> {
                &&& outcome is AbortHost
                &&& final(self).phase() is Terminated
            },
    {
        match menu {
            None => {
                self.phase = ControllerPhase::Terminated;
                StartOutcome::AbortHost
            },
            Some(mut menu) => {
                menu.update_tray_icon(ServerStatus::StartUp);
                self.menu_state = Some(menu);
                match self.server_generator.take() {
                    Some(factory) => {
                        self.phase = ControllerPhase::Active;
                        StartOutcome::Supervise(factory)
                    },
                    None => {
                        self.phase = ControllerPhase::Terminated;
                        StartOutcome::AbortHost
                    },
                }
            },
        }
    }

    /// Consume one delivered event.
    ///
    /// Quit precedence: an exit notice, the run's terminal error status, or
    /// a quit request, at any point while the controller is live — even
    /// before the first status event — turns it to `ShuttingDown` and asks
    /// the host to shut down within the configured timeout; the factory slot
    /// is never touched, and a missing menu is simply no quit match, never a
    /// crash.  Any other status event while active is recorded on the menu
    /// and rendered.  Everything else, and everything after shutdown has
    /// begun, changes nothing.
    pub fn handle_user_event(&mut self, event: UserEvent) -> (action: UserAction)
        requires
            old(self).wf(),
        ensures
            final(self).wf(),
            final(self).icon() == old(self).icon(),
            final(self).shutdown_timeout() == old(self).shutdown_timeout(),
            final(self).factory_stored() == old(self).factory_stored(),
            old(self).shutdown_requested(event@) && old(self).live() ==> {
                &&& action == UserAction::Shutdown(old(self).shutdown_timeout())
                &&& final(self).phase() is ShuttingDown
                &&& final(self).menu_view() == old(self).menu_view()
            },
            old(self).shutdown_requested(event@) && !old(self).live() ==> action
                == UserAction::Ignore && *final(self) == *old(self),
            event@ matches EventView::ServerStatus(status) ==> ((!old(self).shutdown_requested(
                event@,
            ) && old(self).phase() is Active) ==> {
                &&& action == UserAction::Render
                &&& final(self).phase() == old(self).phase()
                &&& final(self).menu_view() matches Some(shown)
                &&& old(self).menu_view() matches Some(previous)
                &&& shown.quit_id == previous.quit_id
                &&& shown.title == spec_status_title(status)
                &&& shown.status_text == spec_status_text(status)
            }),
            !old(self).shutdown_requested(event@) && !(event@ is ServerStatus && old(
                self,
            ).phase() is Active) ==> action == UserAction::Ignore && *final(self) == *old(self),
    {
        match event {
            UserEvent::ServerExit => {
                if matches!(self.phase, ControllerPhase::Uninitialized | ControllerPhase::Active) {
                    self.phase = ControllerPhase::ShuttingDown;
                    UserAction::Shutdown(self.shutdown_timeout_secs)
                } else {
                    UserAction::Ignore
                }
            },
            UserEvent::Menu(id) => {
                let quit = match &self.menu_state {
                    Some(menu) => menu.quit_matches(UserEvent::Menu(id)),
                    None => false,
                };
                if quit && matches!(
                    self.phase,
                    ControllerPhase::Uninitialized | ControllerPhase::Active,
                ) {
                    self.phase = ControllerPhase::ShuttingDown;
                    UserAction::Shutdown(self.shutdown_timeout_secs)
                } else {
                    UserAction::Ignore
                }
            },
            UserEvent::ServerStatus(status) => {
                if matches!(status, ServerStatus::Error(_)) {
                    // The run ended in failure: the host comes down, and the
                    // tray icon's disappearance is the visible signal.
                    if matches!(
                        self.phase,
                        ControllerPhase::Uninitialized | ControllerPhase::Active,
                    ) {
                        self.phase = ControllerPhase::ShuttingDown;
                        UserAction::Shutdown(self.shutdown_timeout_secs)
                    } else {
                        UserAction::Ignore
                    }
                } else if matches!(self.phase, ControllerPhase::Active) {
                    match &mut self.menu_state {
                        Some(menu) => {
                            menu.update_tray_icon(status);
                            UserAction::Render
                        },
                        None => {
                            proof {
                                assert(false);
                            }
                            UserAction::Ignore
                        },
                    }
                } else {
                    UserAction::Ignore
                }
            },
            UserEvent::TrayIcon => UserAction::Ignore,
        }
    }

    /// The host has shut the execution context down (the bounded wait has
    /// elapsed or all work drained — either way).  Termination is
    /// unconditional: no event and no in-flight task can hold it up.
    pub fn finish_shutdown(&mut self)
        requires
            old(self).wf(),
            old(self).phase() is ShuttingDown,
        ensures
            final(self).wf(),
            final(self).phase() is Terminated,
            final(self).icon() == old(self).icon(),
            final(self).menu_view() == old(self).menu_view(),
            final(self).factory_stored() == old(self).factory_stored(),
            final(self).shutdown_timeout() == old(self).shutdown_timeout(),
    {
        self.phase = ControllerPhase::Terminated;
    }

    /// The decoded icon, for the display adapter to build the tray from.
    pub fn icon_ref(&self) -> (icon: &RgbaIcon)
        ensures
            icon == self.icon(),
    {
        &self.icon
    }

    /// The menu the display adapter must currently show, once one exists.
    pub fn menu_ref(&self) -> (menu: &Option<MenuState>)
        ensures
            menu matches Some(m) ==> self.menu_view() == Some(m@),
            menu is None <==> self.menu_view() is None,
    {
        &self.menu_state
    }
}

} // verus!
