//! The calls that cross the boundary to the host.

use vstd::prelude::*;

verus! {

/// The wire value that stands for "no handle": an argument that is not
/// passed, or a call that returned nothing.
pub const ABSENT: i32 = -1;

/// The fixed-width values that the host keeps as scalars.
#[derive(Clone, Copy, Debug, PartialEq, Eq, Structural)]
pub enum Scalar {
    /// A 32-bit signed integer.
    Int,
    /// A 32-bit float.
    Float,
    /// A 64-bit float.
    Double,
}

/// The element types of a host buffer.
#[derive(Clone, Copy, Debug, PartialEq, Eq, Structural)]
pub enum Element {
    /// UTF-16 code units of a host string.
    Text,
    /// Bytes.
    Bytes,
    /// 32-bit signed integers.
    Ints,
    /// 32-bit floats.
    Floats,
    /// 64-bit floats.
    Doubles,
}

/// One call into the host.  The glue performs it and hands the reply back as
/// a plain integer.
#[derive(Debug, PartialEq, Eq)]
pub enum HostCall {
    /// Store an integer host-side; the reply is the handle of the new scalar.
    StoreInt { value: i32 },
    /// Load the scalar behind `var`; the reply is its value.
    Load { var: i32, kind: Scalar },
    /// Make a host string of UTF-16 code units; the reply is its handle.
    Text { units: Vec<u16> },
    /// Compile the host string `source` into a function of two parameters;
    /// the reply is the function's handle.
    Function { source: i32 },
    /// Call `function`; `param_a`, `param_b` and the reply are handles or
    /// [`ABSENT`].
    Call { function: i32, param_a: i32, param_b: i32 },
    /// Copy `length` elements of the buffer behind `var` into native memory;
    /// with `length` zero nothing is copied and the reply is the number of
    /// elements the buffer holds, else the reply is the number copied.
    Read { var: i32, element: Element, length: u32 },
    /// Copy `length` elements of native memory into the buffer behind `var`.
    Write { var: i32, element: Element, length: u32 },
    /// Ask to be notified, once, when the promise behind `promise` resolves.
    Waker { promise: i32 },
    /// Let the host reclaim the resource behind `var`.
    Free { var: i32 },
}

} // verus!
