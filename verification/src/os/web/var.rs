//! Native owners of host resources.
//!
//! A [`JsVar`] owns one handle.  It can be moved and not copied, so a handle
//! has one owner, and [`JsVar::release`] takes the owner itself, so nothing
//! can use a handle after it was released.  The other types wrap a `JsVar` and
//! say what the resource behind it is taken to be; the host does not check
//! that.

use super::host::{Element, HostCall, Scalar, ABSENT};
use super::read::Probe;
use super::registry::{
    after_begin_wait, after_poll, poll_outcome, state_of, PromiseRegistry, PromiseState,
};
use super::utf16::{encode_utf16, utf16};
use core::marker::PhantomData;
use core::task::Poll;
use vstd::prelude::*;

verus! {

/// A host variable: the owner of one handle.  Its view is the handle.
#[derive(Debug)]
pub struct JsVar(i32);

impl View for JsVar {
    type V = i32;

    closed spec fn view(&self) -> i32 {
        self.0
    }
}

/// What releasing a host variable asks of the glue.
#[derive(Debug)]
pub struct Released {
    /// The call that lets the host reclaim the resource.
    pub free: HostCall,
    /// The value that the host had resolved the released promise to and that
    /// no poll took: it has no other owner.
    pub unclaimed: Option<JsVar>,
}

/// The wire form of an optional argument of a call.
pub open spec fn wire(argument: Option<&JsVar>) -> i32 {
    match argument {
        Some(var) => var@,
        None => ABSENT,
    }
}

/// The meaning of the wire value that a call returned: a handle, or nothing.
pub open spec fn unwire(reply: i32) -> Option<i32> {
    if reply == ABSENT {
        None
    } else {
        Some(reply)
    }
}

/// The handle of a variable that may be there.
pub open spec fn handle_of(var: Option<JsVar>) -> Option<i32> {
    match var {
        Some(var) => Some(var@),
        None => None,
    }
}

/// The source of a host function of two parameters, `param_a` and `param_b`,
/// with the given body.
pub open spec fn function_source(body: Seq<char>) -> Seq<char> {
    "\"use strict\";return function(param_a, param_b) { "@ + body + " };"@
}

impl JsVar {
    /// The owner of `handle`.
    pub closed spec fn spec_from_raw(handle: i32) -> JsVar {
        JsVar(handle)
    }

    /// A host variable is its handle, no more: the owner of a handle has that
    /// handle, and two variables with one handle are the same.
    pub proof fn lemma_is_handle(handle: i32, var: JsVar)
        ensures
            JsVar::spec_from_raw(handle)@ == handle,
            JsVar::spec_from_raw(var@) == var,
    {
    }

    /// Takes ownership of a handle that the host minted.
    #[verifier::when_used_as_spec(spec_from_raw)]
    pub fn from_raw(handle: i32) -> (var: JsVar)
        ensures
            var == JsVar::spec_from_raw(handle),
            var@ == handle,
    {
        JsVar(handle)
    }

    /// The handle.
    pub fn as_raw(&self) -> (handle: i32)
        ensures
            handle == self@,
    {
        self.0
    }

    /// The call that stores `value` host-side as a new integer scalar.  The
    /// reply is the handle of the scalar.
    pub fn from_i32(value: i32) -> (call: HostCall)
        ensures
            call == (HostCall::StoreInt { value }),
    {
        HostCall::StoreInt { value }
    }

    /// The call that loads this variable as an integer scalar.
    pub fn into_i32(&self) -> (call: HostCall)
        ensures
            call == (HostCall::Load { var: self@, kind: Scalar::Int }),
    {
        HostCall::Load { var: self.0, kind: Scalar::Int }
    }

    /// The call that loads this variable as a 32-bit float scalar.
    pub fn into_f32(&self) -> (call: HostCall)
        ensures
            call == (HostCall::Load { var: self@, kind: Scalar::Float }),
    {
        HostCall::Load { var: self.0, kind: Scalar::Float }
    }

    /// The call that loads this variable as a 64-bit float scalar.
    pub fn into_f64(&self) -> (call: HostCall)
        ensures
            call == (HostCall::Load { var: self@, kind: Scalar::Double }),
    {
        HostCall::Load { var: self.0, kind: Scalar::Double }
    }

    /// Takes this variable to be a promise and registers interest in it.  The
    /// second part of the answer is the call that arms the host's
    /// notification, if one has to be made.
    pub fn into_promise<T: From<JsVar>>(self, registry: &mut PromiseRegistry) -> (awaited: (
        JsPromise<T>,
        Option<HostCall>,
    ))
        ensures
            awaited.0@ == self@,
            final(registry)@ == after_begin_wait(old(registry)@, self@),
            awaited.1 == if state_of(old(registry)@, self@) is Empty {
                Some(HostCall::Waker { promise: self@ })
            } else {
                None::<HostCall>
            },
    {
        let arm = registry.begin_wait(self.0);
        (JsPromise(self, PhantomData), arm)
    }

    /// Takes this variable to be a function of two parameters.
    pub fn into_fn(self) -> (function: JsFn)
        ensures
            function@ == self@,
    {
        JsFn(self)
    }

    /// Opens a read of this variable as a buffer of `element`s.
    pub fn read(&self, element: Element) -> (probe: Probe)
        ensures
            probe == (Probe { var: self@, element }),
    {
        Probe { var: self.0, element }
    }

    /// Opens a read of this variable as a string, in UTF-16 code units.
    pub fn read_utf16(&self) -> (probe: Probe)
        ensures
            probe == (Probe { var: self@, element: Element::Text }),
    {
        self.read(Element::Text)
    }

    /// Opens a read of this variable as an array of bytes.
    pub fn read_bytes(&self) -> (probe: Probe)
        ensures
            probe == (Probe { var: self@, element: Element::Bytes }),
    {
        self.read(Element::Bytes)
    }

    /// Opens a read of this variable as an array of integers.
    pub fn read_ints(&self) -> (probe: Probe)
        ensures
            probe == (Probe { var: self@, element: Element::Ints }),
    {
        self.read(Element::Ints)
    }

    /// Opens a read of this variable as an array of 32-bit floats.
    pub fn read_floats(&self) -> (probe: Probe)
        ensures
            probe == (Probe { var: self@, element: Element::Floats }),
    {
        self.read(Element::Floats)
    }

    /// Opens a read of this variable as an array of 64-bit floats.
    pub fn read_doubles(&self) -> (probe: Probe)
        ensures
            probe == (Probe { var: self@, element: Element::Doubles }),
    {
        self.read(Element::Doubles)
    }

    /// The call that copies `length` native `element`s into this variable,
    /// taken to be a buffer of that element type.
    pub fn write(&self, element: Element, length: usize) -> (call: HostCall)
        requires
            length <= u32::MAX,
        ensures
            call == (HostCall::Write { var: self@, element, length: length as u32 }),
    {
        HostCall::Write { var: self.0, element, length: length as u32 }
    }

    /// The call that copies `input` into this variable, taken to be an array
    /// of bytes.
    pub fn write_bytes(&self, input: &[u8]) -> (call: HostCall)
        requires
            input@.len() <= u32::MAX,
        ensures
            call == (HostCall::Write {
                var: self@,
                element: Element::Bytes,
                length: input@.len() as u32,
            }),
    {
        self.write(Element::Bytes, input.len())
    }

    /// The call that copies `input` into this variable, taken to be an array
    /// of integers.
    pub fn write_ints(&self, input: &[i32]) -> (call: HostCall)
        requires
            input@.len() <= u32::MAX,
        ensures
            call == (HostCall::Write {
                var: self@,
                element: Element::Ints,
                length: input@.len() as u32,
            }),
    {
        self.write(Element::Ints, input.len())
    }

    /// Gives the handle up.  The registry's entry for it is purged, whatever
    /// its state, so that a later signal for the handle finds nothing to
    /// change.  The answer holds the call that frees the resource and, where
    /// the entry was `Ready`, the value that nobody took.
    pub fn release(self, registry: &mut PromiseRegistry) -> (released: Released)
        ensures
            final(registry)@ == old(registry)@.remove(self@),
            released.free == (HostCall::Free { var: self@ }),
            handle_of(released.unclaimed) == match state_of(old(registry)@, self@) {
                PromiseState::Ready(value) => Some(value),
                _ => None::<i32>,
            },
    {
        let unclaimed = match registry.purge(self.0) {
            PromiseState::Ready(value) => Some(JsVar(value)),
            _ => None,
        };
        Released { free: HostCall::Free { var: self.0 }, unclaimed }
    }
}

/// A host string.  Its view is the handle.
#[derive(Debug)]
pub struct JsString(JsVar);

impl View for JsString {
    type V = i32;

    closed spec fn view(&self) -> i32 {
        self.0@
    }
}

impl JsString {
    /// The call that makes a host string of `string`.  The reply is the
    /// handle of the host string.
    pub fn new(string: &str) -> (call: HostCall)
        ensures
            call matches HostCall::Text { units } && units@ == utf16(string@),
    {
        HostCall::Text { units: encode_utf16(string) }
    }

    /// The variable behind this string.
    pub fn as_var(&self) -> (var: &JsVar)
        ensures
            var@ == self@,
    {
        &self.0
    }

    /// Takes `var` to be a string.
    pub fn from_var(var: JsVar) -> (string: JsString)
        ensures
            string@ == var@,
    {
        JsString(var)
    }

    /// Gives up the claim that the variable is a string.
    pub fn into_var(self) -> (var: JsVar)
        ensures
            var@ == self@,
    {
        self.0
    }
}

/// A host function of two parameters.  Its view is the handle.
#[derive(Debug)]
pub struct JsFn(JsVar);

impl View for JsFn {
    type V = i32;

    closed spec fn view(&self) -> i32 {
        self.0@
    }
}

impl JsFn {
    /// The first call of a function's definition: it makes a host string of
    /// the source of a function with the body `string`, in which the two
    /// parameters are `param_a` and `param_b`.  The reply is the handle of
    /// that string, for [`JsFn::compile`].
    pub fn new(string: &str) -> (call: HostCall)
        ensures
            call matches HostCall::Text { units } && units@ == utf16(function_source(string@)),
    {
        let mut source = String::from_str("\"use strict\";return function(param_a, param_b) { ");
        source.append(string);
        source.append(" };");
        JsString::new(source.as_str())
    }

    /// The second call of a function's definition: it compiles the host
    /// string `source`.  The reply is the handle of the function.
    pub fn compile(source: &JsString) -> (call: HostCall)
        ensures
            call == (HostCall::Function { source: source@ }),
    {
        HostCall::Function { source: source.0.0 }
    }

    /// The call of this function with up to two arguments.  An argument that
    /// is not passed goes over the wire as [`ABSENT`].
    pub fn call(&self, a: Option<&JsVar>, b: Option<&JsVar>) -> (call: HostCall)
        ensures
            call == (HostCall::Call { function: self@, param_a: wire(a), param_b: wire(b) }),
    {
        let param_a = match a {
            Some(var) => var.0,
            None => ABSENT,
        };
        let param_b = match b {
            Some(var) => var.0,
            None => ABSENT,
        };
        HostCall::Call { function: self.0.0, param_a, param_b }
    }

    /// What a call returned, given the host's reply: nothing if the reply is
    /// [`ABSENT`], else the variable behind the handle, which the caller now
    /// owns.
    pub fn returned(reply: i32) -> (value: Option<JsVar>)
        ensures
            handle_of(value) == unwire(reply),
    {
        if reply == ABSENT {
            None
        } else {
            Some(JsVar(reply))
        }
    }

    /// Gives up the claim that the variable is a function.
    pub fn into_var(self) -> (var: JsVar)
        ensures
            var@ == self@,
    {
        self.0
    }
}

/// A host promise that native code waits on, and that resolves to a `T`.  Its
/// view is the handle.
#[derive(Debug)]
pub struct JsPromise<T: From<JsVar>>(JsVar, PhantomData<T>);

impl<T: From<JsVar>> View for JsPromise<T> {
    type V = i32;

    closed spec fn view(&self) -> i32 {
        self.0@
    }
}

impl<T: From<JsVar>> JsPromise<T> {
    /// Polls the promise.  If the host resolved it, the answer is the value,
    /// as a `T`, and the promise's handle is `Empty` again; else the answer is
    /// `Pending` and nothing changes.
    pub fn poll(&self, registry: &mut PromiseRegistry) -> (outcome: Poll<T>)
        ensures
            final(registry)@ == after_poll(old(registry)@, self@),
            match poll_outcome(old(registry)@, self@) {
                Poll::Ready(value) => outcome matches Poll::Ready(converted)
                    && call_ensures(T::from, (JsVar::spec_from_raw(value),), converted),
                Poll::Pending => outcome is Pending,
            },
    {
        match registry.poll(self.0.0) {
            Poll::Ready(value) => Poll::Ready(T::from(JsVar(value))),
            Poll::Pending => Poll::Pending,
        }
    }

    /// Gives up the claim that the variable is a promise.  The registry's
    /// entry for it stays until the variable is released.
    pub fn into_var(self) -> (var: JsVar)
        ensures
            var@ == self@,
    {
        self.0
    }
}

/// A variable that goes over the wire as an argument and comes back is the
/// same variable, unless its handle is the value that stands for no variable;
/// and no argument comes back as no value.
pub proof fn lemma_wire_round_trip(var: &JsVar)
    ensures
        var@ != ABSENT ==> unwire(wire(Some(var))) == Some(var@),
        unwire(wire(None)) == None::<i32>,
{
}

} // verus!
