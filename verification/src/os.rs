//! Operating system specific parts.

pub mod web;

use vstd::prelude::*;
use vstd::std_specs::convert::FromSpecImpl;

verus! {

/// C `size_t`.  Its view is the number.
#[allow(non_camel_case_types)]
#[derive(Copy, Clone, Debug)]
pub struct c_usize(usize);

/// C `ssize_t`.  Its view is the number.
#[allow(non_camel_case_types)]
#[derive(Copy, Clone, Debug)]
pub struct c_ssize(isize);

impl View for c_usize {
    type V = usize;

    closed spec fn view(&self) -> usize {
        self.0
    }
}

impl View for c_ssize {
    type V = isize;

    closed spec fn view(&self) -> isize {
        self.0
    }
}

impl c_usize {
    /// The `size_t` of the number `n`.
    pub closed spec fn of(n: usize) -> c_usize {
        c_usize(n)
    }

    /// A `size_t` is its number, no more.
    pub proof fn lemma_of_view(n: usize, size: c_usize)
        ensures
            c_usize::of(n)@ == n,
            c_usize::of(size@) == size,
    {
    }
}

impl c_ssize {
    /// The `ssize_t` of the number `n`.
    pub closed spec fn of(n: isize) -> c_ssize {
        c_ssize(n)
    }

    /// A `ssize_t` is its number, no more.
    pub proof fn lemma_of_view(n: isize, size: c_ssize)
        ensures
            c_ssize::of(n)@ == n,
            c_ssize::of(size@) == size,
    {
    }
}

impl From<usize> for c_usize {
    fn from(other: usize) -> (size: Self)
        ensures
            size@ == other,
    {
        c_usize(other)
    }
}

impl FromSpecImpl<usize> for c_usize {
    open spec fn obeys_from_spec() -> bool {
        true
    }

    open spec fn from_spec(other: usize) -> Self {
        c_usize::of(other)
    }
}

impl From<isize> for c_ssize {
    fn from(other: isize) -> (size: Self)
        ensures
            size@ == other,
    {
        c_ssize(other)
    }
}

impl FromSpecImpl<isize> for c_ssize {
    open spec fn obeys_from_spec() -> bool {
        true
    }

    open spec fn from_spec(other: isize) -> Self {
        c_ssize::of(other)
    }
}

impl From<c_usize> for usize {
    fn from(other: c_usize) -> (n: Self) {
        other.0
    }
}

impl FromSpecImpl<c_usize> for usize {
    open spec fn obeys_from_spec() -> bool {
        true
    }

    open spec fn from_spec(other: c_usize) -> Self {
        other@
    }
}

impl From<c_ssize> for isize {
    fn from(other: c_ssize) -> (n: Self) {
        other.0
    }
}

impl FromSpecImpl<c_ssize> for isize {
    open spec fn obeys_from_spec() -> bool {
        true
    }

    open spec fn from_spec(other: c_ssize) -> Self {
        other@
    }
}

} // verus!
