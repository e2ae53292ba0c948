//! The lifecycle state of the supervised server task, as shown to the user.
use vstd::prelude::*;

verus! {

/// The state of the running server process.
#[derive(Debug)]
pub enum ServerStatus {
    /// Set when the wrapper starts up, before the first invocation.
    StartUp,
    /// Set just before the supervised task is awaited.
    Running,
    /// Set after the task ended normally and will be started again.
    Stopped(String),
    /// Set after the task ended with an error; it will not be restarted.
    Error(String),
}

/// The mathematical shape of a [`ServerStatus`]: the same four variants with
/// the message strings replaced by their character sequences.
pub enum StatusView {
    StartUp,
    Running,
    Stopped(Seq<char>),
    Error(Seq<char>),
}

impl View for ServerStatus {
    type V = StatusView;

    open spec fn view(&self) -> StatusView {
        match self {
            ServerStatus::StartUp => StatusView::StartUp,
            ServerStatus::Running => StatusView::Running,
            ServerStatus::Stopped(m) => StatusView::Stopped(m@),
            ServerStatus::Error(m) => StatusView::Error(m@),
        }
    }
}

impl Default for ServerStatus {
    /// The wrapper starts in `StartUp`.
    fn default() -> (s: Self)
        ensures
            s is StartUp,
    {
        ServerStatus::StartUp
    }
}

} // verus!
