use vstd::prelude::*;
use crate::addr::SocketAddress;
use crate::meta::{RecvMeta, Transmit, UdpState};

verus! {

/// A recoverable I/O failure on one call, with the host's error code.
#[derive(Clone, Copy, Debug, PartialEq, Eq, Structural)]
pub struct IoError {
    pub code: i32,
}

/// What a poll of a batch operation gives: done (a count, or a failure), or
/// suspended with a wake-up registered for readiness.
#[derive(Debug, PartialEq, Eq, Structural)]
pub enum IoPoll<T> {
    Ready(Result<T, IoError>),
    Pending,
}

/// Why the host stopped taking a batch before its end.
#[derive(Clone, Copy, Debug, PartialEq, Eq, Structural)]
pub enum Blocked {
    /// No progress can be made until the socket is ready again.
    WouldBlock,
    /// The host reported a failure.
    Failed(IoError),
}

/// The result of a batch call in which the host took `done` of `offered`
/// items in order and then stopped for `stop` (ignored when it took all):
/// any progress is reported as a count, and only a call that made none is
/// suspended or fails.
pub open spec fn batch_result(done: nat, offered: nat, stop: Blocked) -> IoPoll<usize> {
    if done > 0 || done == offered {
        IoPoll::Ready(Ok(done as usize))
    } else {
        match stop {
            Blocked::WouldBlock => IoPoll::Pending,
            Blocked::Failed(e) => IoPoll::Ready(Err(e)),
        }
    }
}

/// Settles a batch call from how far the host got.
pub fn batch_outcome(done: usize, offered: usize, stop: Blocked) -> (r: IoPoll<usize>)
    requires
        done <= offered,
    ensures
        r == batch_result(done as nat, offered as nat, stop),
        r matches IoPoll::Ready(Ok(n)) ==> n <= offered && (offered > 0 ==> n >= 1),
{
    if done > 0 || done == offered {
        IoPoll::Ready(Ok(done))
    } else {
        match stop {
            Blocked::WouldBlock => IoPoll::Pending,
            Blocked::Failed(e) => IoPoll::Ready(Err(e)),
        }
    }
}

/// How much of a batch has been handed to a socket so far; the rest is to
/// be offered again once the socket is writable.
#[derive(Clone, Copy, Debug, PartialEq, Eq, Structural)]
pub struct SendProgress {
    pub total: usize,
    pub sent: usize,
}

impl SendProgress {
    pub open spec fn wf(self) -> bool {
        self.sent <= self.total
    }

    pub open spec fn spec_remaining(self) -> nat {
        (self.total - self.sent) as nat
    }

    /// Nothing of a batch of `total` sent yet.
    pub fn new(total: usize) -> (r: SendProgress)
        ensures
            r.wf(),
            r.total == total,
            r.sent == 0,
    {
        SendProgress { total, sent: 0 }
    }

    /// How many descriptors are still to be offered; they start at index
    /// `sent` of the batch.
    pub fn remaining(&self) -> (r: usize)
        requires
            self.wf(),
        ensures
            r == self.spec_remaining(),
    {
        self.total - self.sent
    }

    pub fn is_drained(&self) -> (r: bool)
        requires
            self.wf(),
        ensures
            r == (self.spec_remaining() == 0),
    {
        self.sent == self.total
    }

    /// Takes in the count that a send call on the remainder reported.
    pub fn record(&mut self, accepted: usize)
        requires
            old(self).wf(),
            accepted <= old(self).spec_remaining(),
        ensures
            final(self).wf(),
            final(self).total == old(self).total,
            final(self).sent == old(self).sent + accepted,
    {
        self.sent = self.sent + accepted;
    }
}

/// The total of the counts reported by a run of send calls.
pub open spec fn accepted_total(counts: Seq<nat>) -> nat
    decreases counts.len(),
{
    if counts.len() == 0 {
        0
    } else {
        accepted_total(counts.drop_last()) + counts.last()
    }
}

/// Whether each count of the run is at most what was still left to send.
pub open spec fn within_remainder(total: nat, counts: Seq<nat>) -> bool {
    forall|i: int|
        0 <= i < counts.len() ==> #[trigger] counts[i] + accepted_total(counts.take(i)) <= total
}

/// Offering the unsent remainder again and again, with each call made once
/// the socket is writable (so each takes at least one descriptor), never
/// takes more than the batch, and leaves at most `total - k` after `k`
/// calls: within `total` calls the remainder is drained.
pub proof fn lemma_remainder_drains(total: nat, counts: Seq<nat>)
    requires
        within_remainder(total, counts),
        forall|i: int| 0 <= i < counts.len() ==> #[trigger] counts[i] >= 1,
    ensures
        accepted_total(counts) <= total,
        counts.len() <= accepted_total(counts),
        total - accepted_total(counts) <= total - counts.len(),
    decreases counts.len(),
{
    if counts.len() > 0 {
        let prefix = counts.drop_last();
        let k = counts.len() - 1;
        assert(counts.take(k) == prefix);
        assert forall|i: int| 0 <= i < prefix.len() implies #[trigger] prefix[i] + accepted_total(
            prefix.take(i),
        ) <= total by {
            assert(prefix[i] == counts[i]);
            assert(prefix.take(i) == counts.take(i));
            assert(counts[i] + accepted_total(counts.take(i)) <= total);
        }
        assert forall|i: int| 0 <= i < prefix.len() implies #[trigger] prefix[i] >= 1 by {
            assert(prefix[i] == counts[i]);
        }
        lemma_remainder_drains(total, prefix);
        assert(counts[k] + accepted_total(counts.take(k)) <= total);
        assert(counts[k] >= 1);
    }
}

/// A non-blocking, batch-capable datagram socket. Implemented by each
/// backend; both batch calls register a wake-up and return `Pending` when no
/// progress can be made.
pub trait AsyncUdpSocket {
    /// Hands the host as many descriptors as it takes now, in order from the
    /// first, and reports how many.
    fn poll_send(&mut self, state: &UdpState, transmits: &[Transmit]) -> (r: IoPoll<usize>)
        ensures
            r matches IoPoll::Ready(Ok(n)) ==> n <= transmits@.len() && (transmits@.len() > 0 ==> n
                >= 1),
    ;

    /// Fills one slot per datagram that is available now, up to the number
    /// of slots, and reports how many.
    fn poll_recv(&self, bufs: &mut Vec<Vec<u8>>, meta: &mut Vec<RecvMeta>) -> (r: IoPoll<usize>)
        ensures
            final(bufs)@.len() == old(bufs)@.len(),
            final(meta)@.len() == old(meta)@.len(),
            forall|i: int|
                0 <= i < final(bufs)@.len() ==> (#[trigger] final(bufs)@[i])@.len() == old(
                    bufs,
                )@[i]@.len(),
            r matches IoPoll::Ready(Ok(n)) ==> {
                &&& n <= old(bufs)@.len()
                &&& n <= old(meta)@.len()
                &&& old(bufs)@.len() > 0 && old(meta)@.len() > 0 ==> n >= 1
                &&& forall|i: int|
                    0 <= i < n ==> (#[trigger] final(meta)@[i]).len <= final(bufs)@[i]@.len()
            },
    ;

    /// The address the socket is bound to.
    fn local_addr(&self) -> (r: Result<SocketAddress, IoError>);
}

} // verus!
