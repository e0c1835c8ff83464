//! The executor of the one root task.
//!
//! The executor owns the root task and decides when it is polled; it never
//! polls.  A wake signal that finds the task at rest lends it out; whoever
//! gets it polls it once and settles the poll with the executor, which takes
//! the task back, asks for another poll, or ends.  While the task is lent out
//! the executor does not hold it, so no second poll of it can start: a wake
//! signal that arrives then is queued until the poll is settled.
//!
//! The executor never drops a task.  What it does not keep it hands back, so
//! that a task whose end runs code of its own ends outside the executor.

use core::task::Poll;
use vstd::prelude::*;

verus! {

/// Where the executor stands.
#[derive(Clone, Copy, Debug, PartialEq, Eq, Structural)]
pub enum Phase {
    /// No root task was installed yet.
    Vacant,
    /// The root task is installed and at rest.
    Idle,
    /// The root task is lent out for one poll.
    Polling,
    /// The root task is lent out for one poll, and a wake signal came since.
    Notified,
    /// The root task completed.  This is for good.
    Terminated,
}

impl Phase {
    /// A root task is installed and has not completed.
    pub open spec fn running(self) -> bool {
        self is Idle || self is Polling || self is Notified
    }
}

/// The phase after a wake signal.
pub open spec fn after_wake(phase: Phase) -> Phase {
    match phase {
        Phase::Idle => Phase::Polling,
        Phase::Polling => Phase::Notified,
        other => other,
    }
}

/// The phase after a poll was settled, where `done` says that the root task
/// completed in it.
pub open spec fn after_settle(phase: Phase, done: bool) -> Phase {
    match phase {
        Phase::Polling => if done {
            Phase::Terminated
        } else {
            Phase::Idle
        },
        Phase::Notified => if done {
            Phase::Terminated
        } else {
            Phase::Polling
        },
        other => other,
    }
}

/// The phase after a root task was offered for installation.
pub open spec fn after_install(phase: Phase) -> Phase {
    match phase {
        Phase::Vacant => Phase::Idle,
        other => other,
    }
}

/// What can happen to an executor.
pub enum Signal {
    /// A root task is offered for installation.
    Install,
    /// A wake signal.
    Wake,
    /// A poll is settled; `done` says that the root task completed in it.
    Settle { done: bool },
}

/// The phase after one signal.
pub open spec fn after_signal(phase: Phase, signal: Signal) -> Phase {
    match signal {
        Signal::Install => after_install(phase),
        Signal::Wake => after_wake(phase),
        Signal::Settle { done } => after_settle(phase, done),
    }
}

/// The phase after a sequence of signals, the first of them first.
pub open spec fn after_signals(phase: Phase, signals: Seq<Signal>) -> Phase
    decreases signals.len(),
{
    if signals.len() == 0 {
        phase
    } else {
        after_signal(after_signals(phase, signals.drop_last()), signals.last())
    }
}

/// Termination is for good: whatever signals reach a terminated executor, in
/// whatever order, it stays terminated.
pub proof fn lemma_termination_is_permanent(signals: Seq<Signal>)
    ensures
        after_signals(Phase::Terminated, signals) is Terminated,
    decreases signals.len(),
{
    if signals.len() > 0 {
        lemma_termination_is_permanent(signals.drop_last());
    }
}

/// Before a root task is installed nothing moves the executor: whatever wake
/// signals and settled polls reach a vacant executor, it stays vacant.
pub proof fn lemma_vacant_until_installed(signals: Seq<Signal>)
    requires
        forall|i: int| 0 <= i < signals.len() ==> !(#[trigger] signals[i] is Install),
    ensures
        after_signals(Phase::Vacant, signals) is Vacant,
    decreases signals.len(),
{
    if signals.len() > 0 {
        lemma_vacant_until_installed(signals.drop_last());
    }
}

/// Whether the signal hands the root task out for a poll: a wake signal does
/// if the task rests, and the settling of a poll does if the task did not
/// complete and a wake signal came during the poll.
pub open spec fn lends(phase: Phase, signal: Signal) -> bool {
    match signal {
        Signal::Install => false,
        Signal::Wake => phase is Idle,
        Signal::Settle { done } => phase is Notified && !done,
    }
}

/// Whether the signal ends a poll: the settling of a poll does if one is in
/// flight.
pub open spec fn ends_poll(phase: Phase, signal: Signal) -> bool {
    signal is Settle && (phase is Polling || phase is Notified)
}

/// The number of polls in flight after a sequence of signals to a new
/// executor: the polls that the signals handed the task out for, less those
/// that they ended.
pub open spec fn polls_in_flight(signals: Seq<Signal>) -> int
    decreases signals.len(),
{
    if signals.len() == 0 {
        0
    } else {
        let phase = after_signals(Phase::Vacant, signals.drop_last());
        let begun: int = if lends(phase, signals.last()) {
            1
        } else {
            0
        };
        let ended: int = if ends_poll(phase, signals.last()) {
            1
        } else {
            0
        };
        polls_in_flight(signals.drop_last()) + begun - ended
    }
}

/// The root task is never polled twice at a time.  Whatever signals reach a
/// new executor, in whatever order: one poll is in flight while the executor
/// is in phase `Polling` or `Notified`, and none in any other phase.
pub proof fn lemma_one_poll_at_a_time(signals: Seq<Signal>)
    ensures
        polls_in_flight(signals) == if after_signals(Phase::Vacant, signals) is Polling
            || after_signals(Phase::Vacant, signals) is Notified {
            1int
        } else {
            0int
        },
    decreases signals.len(),
{
    if signals.len() > 0 {
        lemma_one_poll_at_a_time(signals.drop_last());
    }
}

/// What became of a task whose poll was settled.
#[derive(Debug, PartialEq, Eq)]
pub enum Settled<T> {
    /// The executor took the task back.  It rests until the next wake signal.
    Parked,
    /// A wake signal came during the poll: the task is to be polled once more
    /// and that poll settled in turn.
    Again(T),
    /// The executor has no use for the task: it completed, or no poll was in
    /// flight.  It is handed back to be dropped.
    Discarded(T),
}

/// What an executor holds in each phase: the root task only while at rest.
enum Slot<T> {
    Vacant,
    Idle(T),
    Polling,
    Notified,
    Terminated,
}

/// The executor of a root task of type `T`.
pub struct Executor<T> {
    slot: Slot<T>,
}

impl<T> Executor<T> {
    /// The phase of the executor.
    pub closed spec fn spec_phase(&self) -> Phase {
        match self.slot {
            Slot::Vacant => Phase::Vacant,
            Slot::Idle(_) => Phase::Idle,
            Slot::Polling => Phase::Polling,
            Slot::Notified => Phase::Notified,
            Slot::Terminated => Phase::Terminated,
        }
    }

    /// The root task, where the executor holds it: in phase `Idle`.
    pub closed spec fn root(&self) -> Option<T> {
        match self.slot {
            Slot::Idle(root) => Some(root),
            _ => None,
        }
    }

    /// The executor holds the root task exactly in phase `Idle`.
    pub proof fn lemma_root_rests(&self)
        ensures
            self.root() is Some <==> self.spec_phase() is Idle,
    {
    }

    /// Phase and root task are all there is to an executor.
    pub proof fn lemma_phase_and_root(&self, other: &Self)
        requires
            self.spec_phase() == other.spec_phase(),
            self.root() == other.root(),
        ensures
            *self == *other,
    {
    }

    /// An executor without a root task.
    pub fn new() -> (executor: Self)
        ensures
            executor.spec_phase() is Vacant,
            executor.root() is None,
    {
        Executor { slot: Slot::Vacant }
    }

    /// Takes the executor apart.  The answer is the root task if it rests in
    /// the executor.
    pub fn into_root(self) -> (root: Option<T>)
        ensures
            root == self.root(),
    {
        match self.slot {
            Slot::Idle(root) => Some(root),
            _ => None,
        }
    }

    /// The phase of the executor.
    #[verifier::when_used_as_spec(spec_phase)]
    pub fn phase(&self) -> (phase: Phase)
        ensures
            phase == self.spec_phase(),
    {
        match &self.slot {
            Slot::Vacant => Phase::Vacant,
            Slot::Idle(_) => Phase::Idle,
            Slot::Polling => Phase::Polling,
            Slot::Notified => Phase::Notified,
            Slot::Terminated => Phase::Terminated,
        }
    }

    /// Installs the root task.  This succeeds once, on a vacant executor,
    /// which then holds the task at rest.  Every later call is refused: it
    /// changes nothing and hands the task back.
    pub fn install(&mut self, root: T) -> (accepted: Result<(), T>)
        ensures
            accepted is Ok <==> old(self).spec_phase() is Vacant,
            final(self).spec_phase() == after_install(old(self).spec_phase()),
            accepted is Ok ==> final(self).root() == Some(root),
            accepted is Err ==> *final(self) == *old(self) && accepted == Err::<(), T>(root),
    {
        match &self.slot {
            Slot::Vacant => {
                self.slot = Slot::Idle(root);
                Ok(())
            },
            _ => Err(root),
        }
    }

    /// A wake signal.  If the root task is at rest it is lent out: the answer
    /// is the task, to be polled once and settled with [`Executor::settle`].
    /// While the task is lent out the signal is queued and the answer is
    /// `None`.  Before a task is installed and after it completed the signal
    /// changes nothing.
    pub fn wake(&mut self) -> (lent: Option<T>)
        ensures
            final(self).spec_phase() == after_wake(old(self).spec_phase()),
            final(self).root() is None,
            lent == old(self).root(),
            lent is Some <==> lends(old(self).spec_phase(), Signal::Wake),
            !old(self).spec_phase().running() ==> *final(self) == *old(self) && lent is None,
    {
        let mut slot = Slot::Polling;
        core::mem::swap(&mut self.slot, &mut slot);
        match slot {
            Slot::Idle(root) => Some(root),
            Slot::Polling | Slot::Notified => {
                self.slot = Slot::Notified;
                None
            },
            Slot::Vacant => {
                self.slot = Slot::Vacant;
                None
            },
            Slot::Terminated => {
                self.slot = Slot::Terminated;
                None
            },
        }
    }

    /// Settles the poll of `root` that answered `outcome`.  If the task
    /// completed, the executor terminates and discards the task.  If not,
    /// and a wake signal came during the poll, the task is to be polled once
    /// more; else the executor takes it back.  When no poll is in flight,
    /// `root` is not the root task: it is discarded and nothing changes.
    pub fn settle(&mut self, root: T, outcome: Poll<()>) -> (verdict: Settled<T>)
        ensures
            final(self).spec_phase() == after_settle(old(self).spec_phase(), outcome is Ready),
            final(self).root() == if old(self).spec_phase() is Polling && outcome is Pending {
                Some(root)
            } else {
                old(self).root()
            },
            verdict == if old(self).spec_phase() is Polling && outcome is Pending {
                Settled::Parked
            } else if old(self).spec_phase() is Notified && outcome is Pending {
                Settled::Again(root)
            } else {
                Settled::Discarded(root)
            },
            verdict is Again <==> lends(
                old(self).spec_phase(),
                Signal::Settle { done: outcome is Ready },
            ),
    {
        let done = match outcome {
            Poll::Ready(_) => true,
            Poll::Pending => false,
        };
        match &self.slot {
            Slot::Polling => {
                if done {
                    self.slot = Slot::Terminated;
                    Settled::Discarded(root)
                } else {
                    self.slot = Slot::Idle(root);
                    Settled::Parked
                }
            },
            Slot::Notified => {
                if done {
                    self.slot = Slot::Terminated;
                    Settled::Discarded(root)
                } else {
                    self.slot = Slot::Polling;
                    Settled::Again(root)
                }
            },
            _ => Settled::Discarded(root),
        }
    }
}

} // verus!
