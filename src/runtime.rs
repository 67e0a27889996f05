use vstd::prelude::*;
use crate::socket::{AsyncUdpSocket, IoError};
use crate::timer::{AsyncTimer, TimerState};

verus! {

/// What a host environment supplies: timers, datagram sockets and a task
/// spawner. One instance is shared by every connection of an endpoint.
pub trait Runtime {
    type Timer: AsyncTimer;

    type Socket: AsyncUdpSocket;

    /// An OS datagram socket that is already bound.
    type Handle;

    /// A unit of work to run on its own.
    type Task;

    /// A timer armed to `deadline`.
    fn new_timer(&self, deadline: u64) -> (t: Self::Timer)
        ensures
            t.state() == TimerState::Armed(deadline),
            !t.waiting(),
    ;

    /// Schedules `task` to run concurrently with the caller; nothing of it
    /// can be observed through this call, which does not block.
    fn spawn(&self, task: Self::Task);

    /// Sets up a bound socket for non-blocking, batched use; fails when the
    /// host cannot configure it so.
    fn wrap_udp_socket(&self, handle: Self::Handle) -> (r: Result<Self::Socket, IoError>);
}

} // verus!
