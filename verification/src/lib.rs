//! The core of a bridge between a single-threaded host, which owns every
//! foreign resource and names it by a numeric handle, and native cooperative
//! tasks.
//!
//! The crate performs no foreign call itself.  Every operation is a step from
//! plain values to plain values: it says which host call has to be made, or
//! what a host reply means, and the glue around the crate carries the call
//! across the boundary.  All the state of a session is one explicit object,
//! [`os::web::Runtime`]; there is no global.

pub mod log;
pub mod os;
