//! A bridge between a child process's standard streams and a Unix domain
//! socket: the verified core of the multiplexing engine.
//!
//! The library holds the pieces whose behaviour is stated and proved:
//! the double buffer that carries bytes in each direction, the decision
//! logic of the bridge's event loop, and the selection of the process's
//! exit status. The surrounding process spawning, socket handling and
//! readiness polling are ordinary I/O and live outside the library.

pub mod bridge;
pub mod buffer;
pub mod lifecycle;

use vstd::prelude::*;

verus! {

/// The exit status used for every fatal setup or bridging failure.
pub const FATAL_STATUS: i32 = 255;

/// The exit status used when the child terminated without a normal exit code.
pub const SIGNALED_STATUS: i32 = 254;

} // verus!
