//! Reading a host buffer in two phases.
//!
//! Native code cannot know how long a host buffer is.  So a read first asks
//! with a request for no elements, which the host answers with the number of
//! elements that the buffer holds, and then requests exactly that many.  The
//! host's answer to the second request is the number of elements it wrote,
//! which has to be the number requested.

use super::host::{Element, HostCall};
use vstd::prelude::*;

verus! {

/// The host wrote another number of elements than were requested of it.
#[derive(Clone, Copy, Debug, PartialEq, Eq, Structural)]
pub struct ProtocolViolation {
    /// The number of elements that the second request asked for.
    pub requested: u32,
    /// The number of elements that the host says it wrote.
    pub written: u32,
}

/// The first phase of a read: the question how long the buffer is.
#[derive(Debug, PartialEq, Eq, Structural)]
pub struct Probe {
    /// The handle of the buffer.
    pub var: i32,
    /// The element type that the buffer is read as.
    pub element: Element,
}

/// The second phase of a read: the request for all of the buffer.
#[derive(Debug, PartialEq, Eq, Structural)]
pub struct Fetch {
    /// The handle of the buffer.
    pub var: i32,
    /// The element type that the buffer is read as.
    pub element: Element,
    /// The number of elements that the host answered to the probe.
    pub length: u32,
}

impl Probe {
    /// The host call of this phase: a read of no elements.
    pub fn request(&self) -> (call: HostCall)
        ensures
            call == (HostCall::Read { var: self.var, element: self.element, length: 0 }),
    {
        HostCall::Read { var: self.var, element: self.element, length: 0 }
    }

    /// The second phase, given the host's answer to the probe.
    pub fn sized(self, length: u32) -> (fetch: Fetch)
        ensures
            fetch == (Fetch { var: self.var, element: self.element, length }),
    {
        Fetch { var: self.var, element: self.element, length }
    }
}

impl Fetch {
    /// The host call of this phase: a read of as many elements as the buffer
    /// holds.
    pub fn request(&self) -> (call: HostCall)
        ensures
            call == (HostCall::Read { var: self.var, element: self.element, length: self.length }),
    {
        HostCall::Read { var: self.var, element: self.element, length: self.length }
    }

    /// The number of elements that a native buffer of `held` elements has to
    /// make room for beyond those, so that it can take the whole host buffer:
    /// none if it holds that many already.
    pub fn additional(&self, held: usize) -> (more: usize)
        ensures
            more == if held >= self.length {
                0
            } else {
                self.length - held
            },
    {
        let length = self.length as usize;
        if held >= length {
            0
        } else {
            length - held
        }
    }

    /// Ends the read, given the number of elements that the host says it
    /// wrote.  If that is the number requested, it is the length of what was
    /// read; else the host broke the protocol.
    pub fn finish(self, written: u32) -> (read: Result<usize, ProtocolViolation>)
        ensures
            read == if written == self.length {
                Ok::<usize, ProtocolViolation>(written as usize)
            } else {
                Err::<usize, ProtocolViolation>(
                    ProtocolViolation { requested: self.length, written },
                )
            },
    {
        if written == self.length {
            Ok(written as usize)
        } else {
            Err(ProtocolViolation { requested: self.length, written })
        }
    }
}

} // verus!
