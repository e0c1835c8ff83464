//! The host side of a web page.
//!
//! The host owns every resource and names it by a handle.  It runs native
//! code by calling into it: once at the start, and then each time one of its
//! promises resolves.  Native code runs until its one root task can go no
//! further, and returns.

pub mod executor;
pub mod host;
pub mod read;
pub mod registry;
pub mod utf16;
pub mod var;

pub use executor::{Executor, Phase, Settled};
pub use host::{Element, HostCall, Scalar, ABSENT};
pub use read::{Fetch, Probe, ProtocolViolation};
pub use registry::{PromiseRegistry, PromiseState};
pub use var::{JsFn, JsPromise, JsString, JsVar, Released};

use executor::after_wake;
use registry::{after_resolve, state_of};
use var::{handle_of, unwire};
use vstd::prelude::*;

verus! {

/// All the state of one host session: the promise registry and the executor
/// of the root task, of type `T`.  It is made when the program starts and
/// lives as long as the host's session.
pub struct Runtime<T> {
    /// The promises that native code waits on.
    pub registry: PromiseRegistry,
    /// The executor of the root task.
    pub executor: Executor<T>,
}

impl<T> Runtime<T> {
    /// The state at the start of a session: no promise is awaited and no root
    /// task is installed.
    pub fn new() -> (runtime: Self)
        ensures
            runtime.registry@ == Map::<i32, PromiseState>::empty(),
            runtime.executor.spec_phase() is Vacant,
            runtime.executor.root() is None,
    {
        Runtime { registry: PromiseRegistry::new(), executor: Executor::new() }
    }

    /// Ends the session.  The answer is the root task if it rests in the
    /// executor, to be dropped by the caller; all else is forgotten.
    pub fn teardown(self) -> (root: Option<T>)
        ensures
            root == self.executor.root(),
    {
        self.executor.into_root()
    }
}

/// What a resolution signal leads to.
#[derive(Debug)]
pub struct Woken<T> {
    /// The root task, if it is to be polled now.
    pub lent: Option<T>,
    /// The value of the signal, if the signal was absorbed and carried a
    /// value: nothing will ever take it, so it is the caller's to release.
    pub unclaimed: Option<JsVar>,
}

/// Starts the program: installs `main` as the root task and lends it out for
/// its first poll.  The answer `Ok` holds the task; it is to be polled once
/// and the poll settled with the executor.  This works once.  Where a root
/// task was installed before, nothing changes and the answer `Err` hands
/// `main` back.
pub fn block_on<T>(runtime: &mut Runtime<T>, main: T) -> (started: Result<T, T>)
    ensures
        started is Ok <==> old(runtime).executor.spec_phase() is Vacant,
        started is Ok ==> started == Ok::<T, T>(main) && final(runtime).executor.spec_phase()
            is Polling && final(runtime).executor.root() is None,
        started is Err ==> started == Err::<T, T>(main) && final(runtime).executor == old(
            runtime,
        ).executor,
        final(runtime).registry == old(runtime).registry,
{
    match runtime.executor.install(main) {
        Ok(()) => match runtime.executor.wake() {
            Some(root) => Ok(root),
            None => vstd::pervasive::unreached(),
        },
        Err(main) => Err(main),
    }
}

/// Re-enters the executor: a wake signal for the root task.  The answer is
/// the root task if it is to be polled now.
pub fn executor<T>(runtime: &mut Runtime<T>) -> (lent: Option<T>)
    ensures
        final(runtime).executor.spec_phase() == after_wake(old(runtime).executor.spec_phase()),
        final(runtime).executor.root() is None,
        lent == old(runtime).executor.root(),
        !old(runtime).executor.spec_phase().running() ==> final(runtime).executor == old(
            runtime,
        ).executor && lent is None,
        final(runtime).registry == old(runtime).registry,
{
    runtime.executor.wake()
}

/// The host's signal that the promise behind `promise` resolved to the value
/// behind `result`.  If the promise is awaited, its value is kept for the next
/// poll and the executor is re-entered, as by [`executor`].  In every other
/// state of the promise the signal is absorbed: nothing changes, and the value
/// is handed back.
pub fn wake<T>(runtime: &mut Runtime<T>, promise: i32, result: i32) -> (signal: Woken<T>)
    ensures
        final(runtime).registry@ == after_resolve(old(runtime).registry@, promise, result),
        state_of(old(runtime).registry@, promise) is AwaitingWake ==> {
            &&& final(runtime).executor.spec_phase() == after_wake(old(runtime).executor.spec_phase())
            &&& final(runtime).executor.root() is None
            &&& signal.lent == old(runtime).executor.root()
            &&& signal.unclaimed is None
        },
        !(state_of(old(runtime).registry@, promise) is AwaitingWake) ==> {
            &&& final(runtime).executor == old(runtime).executor
            &&& signal.lent is None
            &&& handle_of(signal.unclaimed) == unwire(result)
        },
{
    if runtime.registry.resolve(promise, result) {
        Woken { lent: runtime.executor.wake(), unclaimed: None }
    } else {
        Woken { lent: None, unclaimed: JsFn::returned(result) }
    }
}

/// A resumption token.  It holds nothing: every token stands for the one
/// executor of the runtime that it is used on, so tokens are copied freely
/// and dropped without a trace.
#[derive(Clone, Copy, Debug, PartialEq, Eq, Structural)]
pub struct WakeToken {}

/// A resumption token for the root task.
pub fn waker() -> (token: WakeToken)
    ensures
        token == (WakeToken {  }),
{
    WakeToken {  }
}

impl WakeToken {
    /// Wakes the root task: re-enters the executor, as [`executor`] does.
    pub fn wake<T>(&self, runtime: &mut Runtime<T>) -> (lent: Option<T>)
        ensures
            final(runtime).executor.spec_phase() == after_wake(old(runtime).executor.spec_phase()),
            final(runtime).executor.root() is None,
            lent == old(runtime).executor.root(),
            !old(runtime).executor.spec_phase().running() ==> final(runtime).executor == old(
                runtime,
            ).executor && lent is None,
            final(runtime).registry == old(runtime).registry,
    {
        executor(runtime)
    }

    /// Gives the token up.  There is nothing to free.
    pub fn release(self) {
    }
}

/// All tokens are one: whichever token wakes, and however it was copied, the
/// wake signal reaches the same executor in the same way.
pub proof fn lemma_tokens_are_one(a: WakeToken, b: WakeToken)
    ensures
        a == b,
{
}

} // verus!
