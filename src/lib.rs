//! Lifecycle of a hardware receive stream driven by a dedicated worker.
//!
//! [`lifecycle`] holds the Idle/Active state machine that owns the device
//! stream handle; [`worker`] holds the decisions of the blocking read loop.
//! Both are plain state machines: the code that owns the lock, the thread,
//! the device and the sink performs the actions they hand back.

pub mod lifecycle;
pub mod worker;
