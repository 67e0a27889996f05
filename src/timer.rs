use vstd::prelude::*;

verus! {

/// Where a timer stands. Deadlines and times are ticks of the host's
/// monotonic clock, counted from an origin that the host fixes.
#[derive(Clone, Copy, Debug, PartialEq, Eq, Structural)]
pub enum TimerState {
    Unarmed,
    Armed(u64),
    Fired,
}

/// What a poll of a suspendable operation gives: done, or suspended with a
/// wake-up registered.
#[derive(Clone, Copy, Debug, PartialEq, Eq, Structural)]
pub enum TimerPoll {
    Ready,
    Pending,
}

/// Whether a poll at `now` finds the timer expired.
pub open spec fn expired(s: TimerState, now: u64) -> bool {
    match s {
        TimerState::Unarmed => false,
        TimerState::Armed(d) => d <= now,
        TimerState::Fired => true,
    }
}

/// The state after a poll at `now`.
pub open spec fn after_poll(s: TimerState, now: u64) -> TimerState {
    if expired(s, now) {
        TimerState::Fired
    } else {
        s
    }
}

/// A single-shot, re-armable deadline. Implemented by each backend; the host
/// passes the current time to `poll` and wakes the suspended poller when
/// `reset` reports that one was waiting.
pub trait AsyncTimer {
    spec fn state(&self) -> TimerState;

    /// Whether a suspended poll is registered for a wake-up.
    spec fn waiting(&self) -> bool;

    /// Re-arms the timer to `deadline`, from any state. Returns whether a
    /// suspended poll was waiting; it is to be woken and polled again, now
    /// against the new deadline.
    fn reset(&mut self, deadline: u64) -> (woken: bool)
        ensures
            final(self).state() == TimerState::Armed(deadline),
            !final(self).waiting(),
            woken == old(self).waiting(),
    ;

    /// Ready once the most recently set deadline has passed; otherwise
    /// suspended, with a wake-up registered.
    fn poll(&mut self, now: u64) -> (r: TimerPoll)
        ensures
            (r is Ready) == expired(old(self).state(), now),
            final(self).state() == after_poll(old(self).state(), now),
            final(self).waiting() == (r is Pending),
    ;
}

/// A timer that keeps its own state and is told the time by its host.
#[derive(Debug)]
pub struct DeadlineTimer {
    state: TimerState,
    waiting: bool,
}

impl DeadlineTimer {
    /// A timer armed to `deadline`.
    pub fn new(deadline: u64) -> (r: DeadlineTimer)
        ensures
            r.state() == TimerState::Armed(deadline),
            !r.waiting(),
    {
        DeadlineTimer { state: TimerState::Armed(deadline), waiting: false }
    }

    /// A timer with no deadline yet; it never becomes ready until reset.
    pub fn unarmed() -> (r: DeadlineTimer)
        ensures
            r.state() == TimerState::Unarmed,
            !r.waiting(),
    {
        DeadlineTimer { state: TimerState::Unarmed, waiting: false }
    }

    pub fn current_state(&self) -> (r: TimerState)
        ensures
            r == self.state(),
    {
        self.state
    }

    pub fn is_waiting(&self) -> (r: bool)
        ensures
            r == self.waiting(),
    {
        self.waiting
    }
}

impl AsyncTimer for DeadlineTimer {
    closed spec fn state(&self) -> TimerState {
        self.state
    }

    closed spec fn waiting(&self) -> bool {
        self.waiting
    }

    fn reset(&mut self, deadline: u64) -> (woken: bool) {
        let woken = self.waiting;
        self.state = TimerState::Armed(deadline);
        self.waiting = false;
        woken
    }

    fn poll(&mut self, now: u64) -> (r: TimerPoll) {
        let fire = match self.state {
            TimerState::Unarmed => false,
            TimerState::Armed(d) => d <= now,
            TimerState::Fired => true,
        };
        if fire {
            self.state = TimerState::Fired;
            self.waiting = false;
            TimerPoll::Ready
        } else {
            self.waiting = true;
            TimerPoll::Pending
        }
    }
}

/// One call on a timer: a reset to a deadline, or a poll at a time.
#[derive(Clone, Copy, Debug, PartialEq, Eq, Structural)]
pub enum TimerOp {
    Reset(u64),
    Poll(u64),
}

/// The state after one call.
pub open spec fn step(s: TimerState, op: TimerOp) -> TimerState {
    match op {
        TimerOp::Reset(d) => TimerState::Armed(d),
        TimerOp::Poll(now) => after_poll(s, now),
    }
}

/// The state after a run of calls, in order.
pub open spec fn run(s: TimerState, ops: Seq<TimerOp>) -> TimerState
    decreases ops.len(),
{
    if ops.len() == 0 {
        s
    } else {
        step(run(s, ops.drop_last()), ops.last())
    }
}

/// Whether the run holds a reset.
pub open spec fn has_reset(ops: Seq<TimerOp>) -> bool {
    exists|i: int| 0 <= i < ops.len() && ops[i] is Reset
}

/// The deadline of the last reset in the run.
pub open spec fn latest_deadline(ops: Seq<TimerOp>) -> u64
    decreases ops.len(),
{
    if ops.len() == 0 {
        0
    } else {
        match ops.last() {
            TimerOp::Reset(d) => d,
            TimerOp::Poll(_) => latest_deadline(ops.drop_last()),
        }
    }
}

/// Whether the call, if a poll, was made no later than `now`.
pub open spec fn no_later_than(op: TimerOp, now: u64) -> bool {
    match op {
        TimerOp::Reset(_) => true,
        TimerOp::Poll(t) => t <= now,
    }
}

/// Whether every poll of the run was made no later than `now`.
pub open spec fn polled_by(ops: Seq<TimerOp>, now: u64) -> bool {
    forall|i: int| 0 <= i < ops.len() ==> no_later_than(#[trigger] ops[i], now)
}

proof fn lemma_run_after_reset(s: TimerState, ops: Seq<TimerOp>, now: u64)
    requires
        has_reset(ops),
        polled_by(ops, now),
    ensures
        run(s, ops) == TimerState::Armed(latest_deadline(ops)) || (run(s, ops) == TimerState::Fired
            && latest_deadline(ops) <= now),
    decreases ops.len(),
{
    let last = ops.last();
    let prefix = ops.drop_last();
    if !(last is Reset) {
        let i = choose|i: int| 0 <= i < ops.len() && ops[i] is Reset;
        assert(i < ops.len() - 1);
        assert(prefix[i] == ops[i]);
        assert forall|j: int| 0 <= j < prefix.len() implies no_later_than(prefix[j], now) by {
            assert(prefix[j] == ops[j]);
        }
        lemma_run_after_reset(s, prefix, now);
        assert(ops[ops.len() - 1] == last);
    }
}

/// Whatever the calls before it, a poll at wall-clock time `now` is ready
/// exactly when `now` has reached the deadline of the most recent reset:
/// earlier deadlines no longer count. The polls of the run happened no later
/// than `now`.
pub proof fn lemma_ready_iff_latest_deadline_passed(s: TimerState, ops: Seq<TimerOp>, now: u64)
    requires
        has_reset(ops),
        polled_by(ops, now),
    ensures
        expired(run(s, ops), now) == (latest_deadline(ops) <= now),
{
    lemma_run_after_reset(s, ops, now);
}

/// A reset while a poll is suspended wakes that poll, and the poll made on
/// waking is judged against the new deadline only.
pub proof fn lemma_reset_wakes_suspended_poll<T: AsyncTimer>(
    suspended: T,
    reset: T,
    woken: bool,
    deadline: u64,
    now: u64,
)
    requires
        suspended.waiting(),
        reset.state() == TimerState::Armed(deadline),
        woken == suspended.waiting(),
    ensures
        woken,
        expired(reset.state(), now) == (deadline <= now),
{
}

/// A poll that was suspended leaves the timer as it was; after a reset, the
/// poll made on waking is ready exactly when the new deadline has passed,
/// whatever the deadline it was suspended on.
pub proof fn lemma_suspended_poll_rejudged(s: TimerState, polled_at: u64, deadline: u64, now: u64)
    requires
        !expired(s, polled_at),
    ensures
        after_poll(s, polled_at) == s,
        expired(run(s, seq![TimerOp::Poll(polled_at), TimerOp::Reset(deadline)]), now) == (deadline
            <= now),
{
    let ops = seq![TimerOp::Poll(polled_at), TimerOp::Reset(deadline)];
    assert(ops.last() == TimerOp::Reset(deadline));
}

} // verus!
