//! A verified core for a tray-icon supervisor of a long-running background
//! task.
//!
//! The library models the supervision policy itself: a factory produces one
//! task per cycle, each completed task reports a [`ContinueRunning`] signal,
//! and the loop decides whether to invoke the factory again.  Status changes
//! travel as [`UserEvent`] values, in order, to a controller that renders them
//! on a tray menu and coordinates shutdown.  The platform pieces (the tray
//! icon itself, the host event loop, the async runtime) live outside the
//! library and act only on the plain values and decisions computed here.
mod event_channel;
mod icon;
mod menu_state;
mod server_generator;
mod server_status;
mod supervisor;
mod tray_wrapper;
mod user_event;

pub use event_channel::EventChannel;
pub use icon::RgbaIcon;
pub use icon::decoded_icon;
pub use menu_state::MenuState;
pub use menu_state::MenuStateError;
pub use menu_state::MenuView;
pub use menu_state::spec_status_text;
pub use menu_state::spec_status_title;
pub use server_generator::ContinueRunning;
pub use server_generator::FactorySlot;
pub use server_generator::SignalView;
pub use server_status::ServerStatus;
pub use server_status::StatusView;
pub use supervisor::SupervisionLoop;
pub use supervisor::all_continue;
pub use supervisor::alternating_prefix;
pub use supervisor::cycle_event;
pub use supervisor::invocation_count;
pub use supervisor::is_terminal;
pub use supervisor::lemma_alternating_prefix_shape;
pub use supervisor::lemma_status_ordering;
pub use supervisor::lemma_terminal_idempotence;
pub use supervisor::lemma_trace_snoc;
pub use supervisor::restart_message;
pub use supervisor::restart_notice;
pub use supervisor::run_to_completion;
pub use supervisor::running_event;
pub use supervisor::signals_view;
pub use supervisor::supervision_trace;
pub use tray_wrapper::ControllerPhase;
pub use tray_wrapper::DEFAULT_SHUTDOWN_TIMEOUT_SECS;
pub use tray_wrapper::StartOutcome;
pub use tray_wrapper::TrayWrapper;
pub use tray_wrapper::TrayWrapperError;
pub use tray_wrapper::UserAction;
pub use tray_wrapper::error_notice;
pub use user_event::EventView;
pub use user_event::UserEvent;
pub use user_event::events_view;

use vstd::prelude::*;

verus! {

/// The ways bringing the whole wrapper up can fail.  Everything here is
/// fatal and reported to the caller before the host loop takes over; after
/// that, nothing propagates as a return value any more.
#[derive(Debug)]
pub enum CreateTrayWrapperError {
    /// Constructing the wrapper itself failed.
    TrayWrapper(TrayWrapperError),
    /// The host event loop could not be built or run.
    Winit(String),
}

} // verus!
