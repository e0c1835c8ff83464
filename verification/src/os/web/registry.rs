//! The table of promises that native code waits on.
//!
//! The registry maps a handle to its resolution state.  It owns nothing: a
//! handle in it is a key for lookup, and the value of a resolved promise is
//! kept as a bare handle until a poll takes it.  Both native code (wait,
//! poll, purge) and the host (resolve) change it, in any order.

use super::host::HostCall;
use core::task::Poll;
use std::collections::HashMap;
use vstd::prelude::*;

verus! {

broadcast use vstd::std_specs::hash::group_hash_axioms;

/// `std::task::Poll`, the answer of a poll: a value, or "not yet".  Verus
/// reads the two variants from the standard library as they stand there.
#[verifier::reject_recursive_types(T)]
#[verifier::external_type_specification]
pub struct ExPoll<T>(Poll<T>);

/// What the registry knows of one handle.
#[derive(Clone, Copy, Debug, PartialEq, Eq, Structural)]
pub enum PromiseState {
    /// Nothing: the handle was never awaited, or its value was consumed.
    Empty,
    /// The host has been asked to signal the resolution; none came yet.
    AwaitingWake,
    /// The host resolved the promise to the value behind this handle.
    Ready(i32),
}

/// The state that the map `m` gives `handle`: a handle without an entry is
/// `Empty`.
pub open spec fn state_of(m: Map<i32, PromiseState>, handle: i32) -> PromiseState {
    if m.contains_key(handle) {
        m[handle]
    } else {
        PromiseState::Empty
    }
}

/// The entries after native code registered interest in `handle`.
pub open spec fn after_begin_wait(m: Map<i32, PromiseState>, handle: i32) -> Map<i32, PromiseState> {
    if state_of(m, handle) is Empty {
        m.insert(handle, PromiseState::AwaitingWake)
    } else {
        m
    }
}

/// The entries after the host signalled that `handle` resolved to `value`.
pub open spec fn after_resolve(m: Map<i32, PromiseState>, handle: i32, value: i32) -> Map<
    i32,
    PromiseState,
> {
    if state_of(m, handle) is AwaitingWake {
        m.insert(handle, PromiseState::Ready(value))
    } else {
        m
    }
}

/// The entries after native code polled `handle`.
pub open spec fn after_poll(m: Map<i32, PromiseState>, handle: i32) -> Map<i32, PromiseState> {
    if state_of(m, handle) is Ready {
        m.remove(handle)
    } else {
        m
    }
}

/// What a poll of `handle` answers.
pub open spec fn poll_outcome(m: Map<i32, PromiseState>, handle: i32) -> Poll<i32> {
    match state_of(m, handle) {
        PromiseState::Ready(value) => Poll::Ready(value),
        _ => Poll::Pending,
    }
}

/// What is kept for a handle whose state is not `Empty`.
#[derive(Clone, Copy)]
enum Slot {
    Awaiting,
    Ready(i32),
}

impl Slot {
    spec fn state(self) -> PromiseState {
        match self {
            Slot::Awaiting => PromiseState::AwaitingWake,
            Slot::Ready(value) => PromiseState::Ready(value),
        }
    }
}

/// The promise registry.  Its view is the map from each handle that has an
/// entry to its state; no entry is ever `Empty`.
pub struct PromiseRegistry {
    slots: HashMap<i32, Slot>,
}

impl View for PromiseRegistry {
    type V = Map<i32, PromiseState>;

    closed spec fn view(&self) -> Map<i32, PromiseState> {
        self.slots@.map_values(|slot: Slot| slot.state())
    }
}

impl PromiseRegistry {
    /// The state of `handle`.
    pub open spec fn spec_state(&self, handle: i32) -> PromiseState {
        state_of(self@, handle)
    }

    /// A handle has an entry exactly when its state is not `Empty`, and the
    /// entries are finitely many.
    pub proof fn lemma_entries(&self)
        ensures
            self@.dom().finite(),
            forall|handle: i32|
                self@.contains_key(handle) <==> !(#[trigger] self.spec_state(handle) is Empty),
    {
        assert(self@.dom() =~= self.slots@.dom());
    }

    /// A registry without entries.
    pub fn new() -> (registry: Self)
        ensures
            registry@ == Map::<i32, PromiseState>::empty(),
    {
        let registry = PromiseRegistry { slots: HashMap::new() };
        assert(registry@ =~= Map::<i32, PromiseState>::empty());
        registry
    }

    /// The number of handles that have an entry.
    pub fn len(&self) -> (count: usize)
        ensures
            count == self@.len(),
    {
        assert(self@.dom() =~= self.slots@.dom());
        self.slots.len()
    }

    /// The state of `handle`.
    #[verifier::when_used_as_spec(spec_state)]
    pub fn state(&self, handle: i32) -> (state: PromiseState)
        ensures
            state == self.spec_state(handle),
    {
        match self.slots.get(&handle) {
            None => PromiseState::Empty,
            Some(Slot::Awaiting) => PromiseState::AwaitingWake,
            Some(Slot::Ready(value)) => PromiseState::Ready(*value),
        }
    }

    /// Registers interest in `handle`.  An `Empty` handle becomes
    /// `AwaitingWake`, and the answer is the call that arms the host's
    /// notification for it.  A handle that is awaited already, or whose value
    /// is waiting to be polled, stays as it is and nothing is to be armed: at
    /// most one request per handle is outstanding.
    pub fn begin_wait(&mut self, handle: i32) -> (arm: Option<HostCall>)
        ensures
            final(self)@ == after_begin_wait(old(self)@, handle),
            arm == if old(self).spec_state(handle) is Empty {
                Some(HostCall::Waker { promise: handle })
            } else {
                None::<HostCall>
            },
    {
        if self.slots.contains_key(&handle) {
            None
        } else {
            self.slots.insert(handle, Slot::Awaiting);
            assert(self@ =~= after_begin_wait(old(self)@, handle));
            Some(HostCall::Waker { promise: handle })
        }
    }

    /// The host's signal that `handle` resolved to `value`.  An awaited handle
    /// becomes `Ready(value)` and the answer is `true`: the executor has to be
    /// re-entered.  In every other state the signal is absorbed: nothing
    /// changes and the answer is `false`.
    pub fn resolve(&mut self, handle: i32, value: i32) -> (woke: bool)
        ensures
            final(self)@ == after_resolve(old(self)@, handle, value),
            woke == (old(self).spec_state(handle) is AwaitingWake),
    {
        match self.slots.get(&handle) {
            Some(Slot::Awaiting) => {
                self.slots.insert(handle, Slot::Ready(value));
                assert(self@ =~= after_resolve(old(self)@, handle, value));
                true
            },
            _ => false,
        }
    }

    /// Takes the value of `handle` if it is `Ready`, which leaves the handle
    /// `Empty`; otherwise answers `Pending` and changes nothing.
    pub fn poll(&mut self, handle: i32) -> (outcome: Poll<i32>)
        ensures
            final(self)@ == after_poll(old(self)@, handle),
            outcome == poll_outcome(old(self)@, handle),
    {
        match self.slots.get(&handle) {
            Some(Slot::Ready(value)) => {
                let value = *value;
                self.slots.remove(&handle);
                assert(self@ =~= after_poll(old(self)@, handle));
                Poll::Ready(value)
            },
            _ => Poll::Pending,
        }
    }

    /// Removes the entry of `handle`, whatever its state, and answers the
    /// state that it had.
    pub fn purge(&mut self, handle: i32) -> (removed: PromiseState)
        ensures
            final(self)@ == old(self)@.remove(handle),
            removed == old(self).spec_state(handle),
    {
        let removed = match self.slots.remove(&handle) {
            None => PromiseState::Empty,
            Some(Slot::Awaiting) => PromiseState::AwaitingWake,
            Some(Slot::Ready(value)) => PromiseState::Ready(value),
        };
        assert(self@ =~= old(self)@.remove(handle));
        removed
    }
}

/// Round trip.  Let the host resolve an awaited handle to a value: the handle
/// is then `Ready` with that value; a poll answers the value and leaves the
/// handle without an entry, so `Empty`; and a second poll is `Pending`: the
/// value comes out exactly once.
pub proof fn lemma_resolve_poll_round_trip(m: Map<i32, PromiseState>, handle: i32, value: i32)
    requires
        state_of(m, handle) is AwaitingWake,
    ensures
        state_of(after_resolve(m, handle, value), handle) == PromiseState::Ready(value),
        poll_outcome(after_resolve(m, handle, value), handle) == Poll::Ready(value),
        after_poll(after_resolve(m, handle, value), handle) == m.remove(handle),
        state_of(after_poll(after_resolve(m, handle, value), handle), handle) is Empty,
        poll_outcome(after_poll(after_resolve(m, handle, value), handle), handle) == Poll::<i32>::Pending,
{
    assert(after_poll(after_resolve(m, handle, value), handle) =~= m.remove(handle));
}

/// A resolution signal for a handle that is not awaited, be it `Empty` or
/// `Ready` already, changes nothing.
pub proof fn lemma_stray_resolve_is_absorbed(m: Map<i32, PromiseState>, handle: i32, value: i32)
    requires
        !(state_of(m, handle) is AwaitingWake),
    ensures
        after_resolve(m, handle, value) == m,
{
}

/// Two resolution signals in a row for one handle, whatever its state and
/// whatever the two values: the second changes nothing, so the value of the
/// first is never overwritten.
pub proof fn lemma_second_resolve_is_absorbed(
    m: Map<i32, PromiseState>,
    handle: i32,
    first: i32,
    second: i32,
)
    ensures
        after_resolve(after_resolve(m, handle, first), handle, second) == after_resolve(m, handle, first),
        state_of(m, handle) is AwaitingWake ==> state_of(
            after_resolve(after_resolve(m, handle, first), handle, second),
            handle,
        ) == PromiseState::Ready(first),
{
}

/// Once the entry of a handle is purged, in whatever state it was, a
/// resolution signal for that handle changes nothing: the entry does not come
/// back.
pub proof fn lemma_resolve_after_purge_is_absorbed(
    m: Map<i32, PromiseState>,
    handle: i32,
    value: i32,
)
    ensures
        !m.remove(handle).contains_key(handle),
        state_of(m.remove(handle), handle) is Empty,
        after_resolve(m.remove(handle), handle, value) == m.remove(handle),
{
}

/// A handle becomes `Ready` in one way only: by a resolution signal for it
/// that finds it awaited.  No other step makes a handle `Ready` or changes
/// the value that it is `Ready` with.
pub proof fn lemma_ready_comes_from_awaiting(
    m: Map<i32, PromiseState>,
    handle: i32,
    other: i32,
    value: i32,
)
    ensures
        state_of(after_begin_wait(m, other), handle) is Ready ==> state_of(
            after_begin_wait(m, other),
            handle,
        ) == state_of(m, handle),
        state_of(after_poll(m, other), handle) is Ready ==> state_of(after_poll(m, other), handle)
            == state_of(m, handle),
        state_of(m.remove(other), handle) is Ready ==> state_of(m.remove(other), handle)
            == state_of(m, handle),
        state_of(after_resolve(m, other, value), handle) is Ready ==> state_of(
            after_resolve(m, other, value),
            handle,
        ) == state_of(m, handle) || (other == handle && state_of(m, handle) is AwaitingWake),
{
}

/// A poll of one handle and a resolution signal for another come to the same
/// entries in either order: the host may signal before, or between, native
/// polls.
pub proof fn lemma_poll_and_resolve_commute(
    m: Map<i32, PromiseState>,
    polled_handle: i32,
    resolved_handle: i32,
    value: i32,
)
    requires
        polled_handle != resolved_handle,
    ensures
        after_poll(after_resolve(m, resolved_handle, value), polled_handle) == after_resolve(
            after_poll(m, polled_handle),
            resolved_handle,
            value,
        ),
        poll_outcome(after_resolve(m, resolved_handle, value), polled_handle) == poll_outcome(
            m,
            polled_handle,
        ),
{
    assert(after_poll(after_resolve(m, resolved_handle, value), polled_handle) =~= after_resolve(
        after_poll(m, polled_handle),
        resolved_handle,
        value,
    ));
}

} // verus!
