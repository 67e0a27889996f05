//! Runtime independence for a datagram transport: the capabilities a host
//! environment supplies (timers, non-blocking batched datagram I/O) and the
//! rule that picks a backend automatically.

pub mod addr;
pub mod select;
pub mod timer;
pub mod meta;
pub mod socket;
pub mod runtime;
