//! The supervision loop: the policy that invokes the task factory, interprets
//! each [`ContinueRunning`] signal, and emits status events in order.
//!
//! The loop itself runs on a background execution context and suspends while
//! the supervised task runs; that suspension cannot happen here, so the loop
//! is split into its decision steps.  A host drives it: `begin_cycle` just
//! before invoking the factory and awaiting the produced task, and
//! `complete_cycle` with the signal the task returned.  Each step hands back
//! the exact event to deliver on the channel, and the ghost state ties the
//! whole run to [`supervision_trace`], the mathematical form of the emitted
//! sequence.
use crate::event_channel::EventChannel;
use crate::server_generator::ContinueRunning;
use crate::server_generator::SignalView;
use crate::server_status::ServerStatus;
use crate::server_status::StatusView;
use crate::user_event::EventView;
use crate::user_event::UserEvent;
use crate::user_event::events_view;
use vstd::prelude::*;
use vstd::string::StringExecFns;

verus! {

/// The message shown while the server is stopped between two invocations.
pub open spec fn restart_notice() -> Seq<char> {
    "Server Exited, will start again"@
}

/// The status event emitted just before each invocation is awaited.
pub open spec fn running_event() -> EventView {
    EventView::ServerStatus(StatusView::Running)
}

/// The event emitted when a completed invocation reported `signal`.
pub open spec fn cycle_event(signal: SignalView) -> EventView {
    match signal {
        SignalView::Continue => EventView::ServerStatus(StatusView::Stopped(restart_notice())),
        SignalView::Exit => EventView::ServerExit,
        SignalView::ExitWithError(m) => EventView::ServerStatus(StatusView::Error(m)),
    }
}

/// A signal after which the factory is never invoked again.
pub open spec fn is_terminal(signal: SignalView) -> bool {
    !(signal is Continue)
}

/// Every signal in the sequence asks for another invocation.
pub open spec fn all_continue(signals: Seq<SignalView>) -> bool {
    forall|i: int| 0 <= i < signals.len() ==> signals[i] is Continue
}

/// The views of a sequence of signals, in the same order.
pub open spec fn signals_view(signals: Seq<ContinueRunning>) -> Seq<SignalView> {
    signals.map_values(|s: ContinueRunning| s@)
}

/// The exact sequence of events the supervision loop emits when consecutive
/// invocations complete with `signals`: one `Running` before each completed
/// invocation, the completion's own event after it, and nothing at all for
/// signals that follow the first terminal one.
pub open spec fn supervision_trace(signals: Seq<SignalView>) -> Seq<EventView>
    decreases signals.len(),
{
    if signals.len() == 0 {
        Seq::empty()
    } else {
        seq![running_event(), cycle_event(signals[0])] + if signals[0] is Continue {
            supervision_trace(signals.skip(1))
        } else {
            Seq::empty()
        }
    }
}

/// How many times the factory is invoked while consecutive invocations
/// complete with `signals`: one per signal up to and including the first
/// terminal one.
pub open spec fn invocation_count(signals: Seq<SignalView>) -> nat
    decreases signals.len(),
{
    if signals.len() == 0 {
        0
    } else if signals[0] is Continue {
        1 + invocation_count(signals.skip(1))
    } else {
        1
    }
}

/// Extending a run that has only asked to continue by one more completed
/// invocation appends exactly one `Running` and that invocation's own event.
pub proof fn lemma_trace_snoc(signals: Seq<SignalView>, signal: SignalView)
    requires
        all_continue(signals),
    ensures
        supervision_trace(signals.push(signal)) == supervision_trace(signals) + seq![
            running_event(),
            cycle_event(signal),
        ],
        invocation_count(signals.push(signal)) == invocation_count(signals) + 1,
    decreases signals.len(),
{
    let extended = signals.push(signal);
    if signals.len() == 0 {
        assert(extended.skip(1) =~= Seq::<SignalView>::empty());
        assert(signals =~= Seq::<SignalView>::empty());
        assert(supervision_trace(extended) =~= supervision_trace(signals) + seq![
            running_event(),
            cycle_event(signal),
        ]);
    } else {
        assert(signals[0] is Continue);
        assert(extended.skip(1) =~= signals.skip(1).push(signal));
        assert(all_continue(signals.skip(1)));
        lemma_trace_snoc(signals.skip(1), signal);
        assert(supervision_trace(extended) =~= supervision_trace(signals) + seq![
            running_event(),
            cycle_event(signal),
        ]);
    }
}

/// `n` repetitions of the pair `Running, Stopped`: the events of `n`
/// invocations that all ended with `Continue`.
pub open spec fn alternating_prefix(n: nat) -> Seq<EventView>
    decreases n,
{
    if n == 0 {
        Seq::empty()
    } else {
        seq![running_event(), cycle_event(SignalView::Continue)] + alternating_prefix(
            (n - 1) as nat,
        )
    }
}

/// The shape of [`alternating_prefix`]: `2 * n` events that strictly
/// alternate between `Running` and `Stopped`, starting with `Running`.
pub proof fn lemma_alternating_prefix_shape(n: nat)
    ensures
        alternating_prefix(n).len() == 2 * n,
        forall|i: int|
            0 <= i < 2 * n ==> #[trigger] alternating_prefix(n)[i] == if i % 2 == 0 {
                running_event()
            } else {
                cycle_event(SignalView::Continue)
            },
    decreases n,
{
    if n > 0 {
        lemma_alternating_prefix_shape((n - 1) as nat);
        let tail = alternating_prefix((n - 1) as nat);
        let whole = alternating_prefix(n);
        assert forall|i: int| 0 <= i < 2 * n implies #[trigger] whole[i] == if i % 2 == 0 {
            running_event()
        } else {
            cycle_event(SignalView::Continue)
        } by {
            if i >= 2 {
                assert(whole[i] == tail[i - 2]);
                assert((i - 2) % 2 == i % 2);
            }
        }
    }
}

/// Status ordering: when `N` invocations end with `Continue` and the next one
/// ends with a terminal signal, the emitted sequence is exactly `Running,
/// Stopped, Running, Stopped, ..., Running`, followed by the terminal
/// invocation's own event — `N + 1` times `Running`, `N` times `Stopped`, one
/// terminal event, in that exact interleaving — and the factory is invoked
/// exactly `N + 1` times.
pub proof fn lemma_status_ordering(signals: Seq<SignalView>)
    requires
        signals.len() >= 1,
        forall|i: int| 0 <= i < signals.len() - 1 ==> signals[i] is Continue,
        is_terminal(signals.last()),
    ensures
        supervision_trace(signals) == alternating_prefix((signals.len() - 1) as nat) + seq![
            running_event(),
            cycle_event(signals.last()),
        ],
        supervision_trace(signals).len() == 2 * signals.len(),
        invocation_count(signals) == signals.len(),
    decreases signals.len(),
{
    lemma_alternating_prefix_shape((signals.len() - 1) as nat);
    if signals.len() == 1 {
        assert(signals.skip(1) =~= Seq::<SignalView>::empty());
        assert(supervision_trace(signals) =~= alternating_prefix(0) + seq![
            running_event(),
            cycle_event(signals.last()),
        ]);
    } else {
        let rest = signals.skip(1);
        assert(signals[0] is Continue);
        assert(rest.last() == signals.last());
        assert(forall|i: int| 0 <= i < rest.len() - 1 ==> rest[i] is Continue);
        lemma_status_ordering(rest);
        assert(supervision_trace(signals) == seq![
            running_event(),
            cycle_event(SignalView::Continue),
        ] + supervision_trace(rest));
        assert(supervision_trace(signals) =~= alternating_prefix((signals.len() - 1) as nat)
            + seq![running_event(), cycle_event(signals.last())]);
    }
}

/// Terminal idempotence: once some invocation has completed with a terminal
/// signal, whatever would come after it changes nothing — the emitted events
/// and the number of factory invocations are those of the run up to that
/// point alone.
pub proof fn lemma_terminal_idempotence(signals: Seq<SignalView>, extra: Seq<SignalView>)
    requires
        exists|i: int| 0 <= i < signals.len() && is_terminal(signals[i]),
    ensures
        supervision_trace(signals + extra) == supervision_trace(signals),
        invocation_count(signals + extra) == invocation_count(signals),
    decreases signals.len(),
{
    let whole = signals + extra;
    let k = choose|i: int| 0 <= i < signals.len() && is_terminal(signals[i]);
    assert(whole[0] == signals[0]);
    if signals[0] is Continue {
        assert(k > 0);
        assert(is_terminal(signals.skip(1)[k - 1]));
        assert(whole.skip(1) =~= signals.skip(1) + extra);
        lemma_terminal_idempotence(signals.skip(1), extra);
        assert(supervision_trace(whole) =~= supervision_trace(signals));
    } else {
        assert(supervision_trace(whole) =~= supervision_trace(signals));
    }
}

/// The restart message carried by the `Stopped` status between two
/// invocations.
pub fn restart_message() -> (msg: String)
    ensures
        msg@ == restart_notice(),
{
    String::from_str("Server Exited, will start again")
}

/// Where a supervision loop stands between two of its steps.
enum LoopPhase {
    /// Ready to invoke the factory for the next cycle.
    Ready,
    /// `Running` has been emitted; the produced task is being awaited.
    Awaiting,
    /// A terminal signal arrived; the factory is never invoked again.
    Finished,
}

/// The supervision loop, reduced to its decisions.
///
/// A host calls `begin_cycle` just before it invokes the factory and awaits
/// the produced task, and `complete_cycle` with the signal the task returned,
/// delivering each returned event on the channel in order.  The ghost
/// sequence of completed signals ties what was emitted to
/// [`supervision_trace`].
pub struct SupervisionLoop {
    phase: LoopPhase,
    signals: Ghost<Seq<SignalView>>,
}

impl SupervisionLoop {
    /// The views of the signals of all completed invocations, in order.
    pub closed spec fn signals(self) -> Seq<SignalView> {
        self.signals@
    }

    /// Whether a cycle has begun and its task has not completed yet.
    pub closed spec fn awaiting(self) -> bool {
        self.phase is Awaiting
    }

    /// Whether a terminal signal has arrived.
    pub closed spec fn finished(self) -> bool {
        self.phase is Finished
    }

    /// Everything the loop has emitted so far, in order.
    pub open spec fn emitted(self) -> Seq<EventView> {
        if self.awaiting() {
            supervision_trace(self.signals()).push(running_event())
        } else {
            supervision_trace(self.signals())
        }
    }

    /// How often the factory has been invoked so far.
    pub open spec fn invocations(self) -> nat {
        invocation_count(self.signals()) + if self.awaiting() {
            1nat
        } else {
            0nat
        }
    }

    /// The loop's private consistency: while it keeps running every completed
    /// signal was `Continue`, and once finished exactly the last one was not.
    pub closed spec fn wf(self) -> bool {
        match self.phase {
            LoopPhase::Ready => all_continue(self.signals@),
            LoopPhase::Awaiting => all_continue(self.signals@),
            LoopPhase::Finished => self.signals@.len() >= 1 && is_terminal(self.signals@.last())
                && all_continue(self.signals@.take(self.signals@.len() - 1)),
        }
    }

    /// A loop that has not yet invoked the factory.
    pub fn new() -> (sl: Self)
        ensures
            sl.wf(),
            !sl.awaiting(),
            !sl.finished(),
            sl.signals() == Seq::<SignalView>::empty(),
    {
        SupervisionLoop { phase: LoopPhase::Ready, signals: Ghost(Seq::empty()) }
    }

    /// Whether a terminal signal has arrived.
    pub fn is_finished(&self) -> (finished: bool)
        ensures
            finished == self.finished(),
    {
        matches!(self.phase, LoopPhase::Finished)
    }

    /// Start one cycle: the host must now invoke the factory once, deliver
    /// the returned `Running` event, and await the produced task.
    pub fn begin_cycle(&mut self) -> (event: UserEvent)
        requires
            old(self).wf(),
            !old(self).awaiting(),
            !old(self).finished(),
        ensures
            final(self).wf(),
            final(self).awaiting(),
            !final(self).finished(),
            final(self).signals() == old(self).signals(),
            final(self).invocations() == old(self).invocations() + 1,
            event@ == running_event(),
            final(self).emitted() == old(self).emitted().push(running_event()),
    {
        self.phase = LoopPhase::Awaiting;
        UserEvent::ServerStatus(ServerStatus::Running)
    }

    /// Finish the cycle whose task completed with `signal`: the host must
    /// deliver the returned event, and invoke the factory again only while
    /// the loop is not finished.
    pub fn complete_cycle(&mut self, signal: ContinueRunning) -> (event: UserEvent)
        requires
            old(self).wf(),
            old(self).awaiting(),
        ensures
            final(self).wf(),
            !final(self).awaiting(),
            final(self).finished() <==> is_terminal(signal@),
            final(self).signals() == old(self).signals().push(signal@),
            final(self).invocations() == old(self).invocations(),
            event@ == cycle_event(signal@),
            final(self).emitted() == old(self).emitted().push(cycle_event(signal@)),
            final(self).emitted() == supervision_trace(final(self).signals()),
    {
        let ghost sv = signal@;
        proof {
            lemma_trace_snoc(self.signals@, sv);
        }
        let event = match signal {
            ContinueRunning::Continue => {
                self.phase = LoopPhase::Ready;
                UserEvent::ServerStatus(ServerStatus::Stopped(restart_message()))
            },
            ContinueRunning::Exit => {
                self.phase = LoopPhase::Finished;
                UserEvent::ServerExit
            },
            ContinueRunning::ExitWithError(message) => {
                self.phase = LoopPhase::Finished;
                UserEvent::ServerStatus(ServerStatus::Error(message))
            },
        };
        proof {
            let extended = self.signals@.push(sv);
            assert(extended.take(extended.len() - 1) =~= self.signals@);
            assert(supervision_trace(extended) =~= supervision_trace(self.signals@).push(
                running_event(),
            ).push(cycle_event(sv)));
        }
        self.signals = Ghost(self.signals@.push(sv));
        event
    }
}

/// Run a whole supervision session in one sitting, with the signal of each
/// invocation supplied up front: signals are consumed in order until the
/// first terminal one (or until they run out), every emitted event passes
/// through an [`EventChannel`], and the drained channel is returned together
/// with the number of factory invocations.
///
/// The returned events are exactly [`supervision_trace`] of the supplied
/// signals, in order; the invocation count is exactly [`invocation_count`].
pub fn run_to_completion(signals: Vec<ContinueRunning>) -> (outcome: (Vec<UserEvent>, usize))
    ensures
        events_view(outcome.0@) == supervision_trace(signals_view(signals@)),
        outcome.1 == invocation_count(signals_view(signals@)),
{
    let ghost full = signals_view(signals@);
    let mut sl = SupervisionLoop::new();
    let mut chan = EventChannel::new();
    let mut invocations: usize = 0;
    let mut i: usize = 0;
    while i < signals.len() && !sl.is_finished()
        invariant
            sl.wf(),
            !sl.awaiting(),
            i <= signals.len(),
            full == signals_view(signals@),
            full.len() == signals.len(),
            sl.signals() == full.take(i as int),
            sl.finished() ==> i >= 1 && is_terminal(full[i - 1]),
            events_view(chan@) == sl.emitted(),
            invocations == sl.invocations(),
            invocations <= i,
        decreases signals.len() - i,
    {
        let event = sl.begin_cycle();
        chan.send(event);
        invocations = invocations + 1;
        let signal = match &signals[i] {
            ContinueRunning::Continue => ContinueRunning::Continue,
            ContinueRunning::Exit => ContinueRunning::Exit,
            ContinueRunning::ExitWithError(message) => ContinueRunning::ExitWithError(
                message.clone(),
            ),
        };
        assert(signal@ == full[i as int]);
        let event = sl.complete_cycle(signal);
        chan.send(event);
        proof {
            assert(full.take(i as int).push(full[i as int]) =~= full.take(i + 1));
            assert(events_view(chan@) =~= sl.emitted());
        }
        i = i + 1;
    }
    proof {
        if sl.finished() {
            assert(full.take(i as int) + full.skip(i as int) =~= full);
            lemma_terminal_idempotence(full.take(i as int), full.skip(i as int));
        } else {
            assert(full.take(i as int) =~= full);
        }
    }
    let mut events: Vec<UserEvent> = Vec::new();
    let ghost all_events = chan@;
    while chan.len() > 0
        invariant
            events@ + chan@ == all_events,
        decreases chan@.len(),
    {
        let received = chan.try_recv();
        match received {
            Some(event) => {
                events.push(event);
                proof {
                    assert(events@ + chan@ =~= all_events);
                }
            },
            None => {},
        }
    }
    assert(events@ =~= all_events);
    (events, invocations)
}

} // verus!
