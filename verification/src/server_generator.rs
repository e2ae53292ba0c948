//! The continuation signal reported by each completed task, and the take-once
//! slot that hands the task factory to exactly one supervision loop.
use vstd::prelude::*;

verus! {

/// The options on whether the server task should be started again after one
/// invocation has completed.
#[derive(Debug)]
pub enum ContinueRunning {
    /// The server generator should be called again.
    Continue,
    /// There is no point in trying to execute again.
    Exit,
    /// There is no point in trying to execute again, and we have a reason.
    ExitWithError(String),
}

/// The mathematical shape of a [`ContinueRunning`] signal.
pub enum SignalView {
    Continue,
    Exit,
    ExitWithError(Seq<char>),
}

impl View for ContinueRunning {
    type V = SignalView;

    open spec fn view(&self) -> SignalView {
        match self {
            ContinueRunning::Continue => SignalView::Continue,
            ContinueRunning::Exit => SignalView::Exit,
            ContinueRunning::ExitWithError(m) => SignalView::ExitWithError(m@),
        }
    }
}

/// A slot that holds the task factory until the supervision loop claims it.
///
/// The factory must be owned by at most one supervision loop, so the slot
/// gives its content out exactly once: the first `take` empties the slot and
/// every later `take` deterministically returns `None`.
pub struct FactorySlot<F> {
    value: Option<F>,
}

impl<F> FactorySlot<F> {
    /// The content still waiting in the slot, if any.
    pub closed spec fn stored(self) -> Option<F> {
        self.value
    }

    /// Create a slot already holding `factory`.
    pub fn new_with(factory: F) -> (slot: Self)
        ensures
            slot.stored() == Some(factory),
    {
        FactorySlot { value: Some(factory) }
    }

    /// Claim the content.  Returns whatever the slot still held and leaves it
    /// empty, so a second call always returns `None`: ownership of the
    /// factory can never be handed out twice, regardless of timing.
    pub fn take(&mut self) -> (taken: Option<F>)
        ensures
            taken == old(self).stored(),
            final(self).stored() is None,
    {
        self.value.take()
    }
}

} // verus!
