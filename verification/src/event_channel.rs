//! An ordered delivery path for [`UserEvent`] values.
//!
//! The platform delivers events to the controller through the host event
//! loop's own queue; this type is the library's model of that path.  It is a
//! plain FIFO queue: `send` appends, `try_recv` removes from the front, and
//! nothing is dropped, duplicated or reordered.
use crate::user_event::UserEvent;
use vstd::prelude::*;

verus! {

/// A first-in-first-out queue of pending events.
pub struct EventChannel {
    pending: Vec<UserEvent>,
}

impl View for EventChannel {
    type V = Seq<UserEvent>;

    closed spec fn view(&self) -> Seq<UserEvent> {
        self.pending@
    }
}

impl EventChannel {
    /// A channel with nothing pending.
    pub fn new() -> (chan: Self)
        ensures
            chan@ == Seq::<UserEvent>::empty(),
    {
        EventChannel { pending: Vec::new() }
    }

    /// Deliver `event` behind everything already pending.
    pub fn send(&mut self, event: UserEvent)
        ensures
            final(self)@ == old(self)@.push(event),
    {
        self.pending.push(event);
    }

    /// Consume the oldest pending event, or `None` when the channel is empty.
    pub fn try_recv(&mut self) -> (received: Option<UserEvent>)
        ensures
            old(self)@.len() == 0 ==> received is None && final(self)@ == old(self)@,
            old(self)@.len() > 0 ==> received == Some(old(self)@[0]) && final(self)@ == old(
                self,
            )@.skip(1),
    {
        if self.pending.len() == 0 {
            None
        } else {
            let event = self.pending.remove(0);
            assert(self@ =~= old(self)@.skip(1));
            Some(event)
        }
    }

    /// How many events are pending.
    pub fn len(&self) -> (n: usize)
        ensures
            n == self@.len(),
    {
        self.pending.len()
    }
}

} // verus!
