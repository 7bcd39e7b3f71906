//! The idle timer of a UDP stream: what starts it anew, and what follows once it
//! has run out.

use crate::error::ErrorKind;
use crate::read::{read_end, receive_end, Polled, ReadStep, ReceiveStep};
use crate::timeout::{timeout_message, Duration};
use bytes::Bytes;
use vstd::prelude::*;

verus! {

/// What becomes of the idle timer after a call.
#[derive(Clone, Copy, Debug, PartialEq, Eq, Structural)]
pub enum TimerStep {
    /// It runs on as it is.
    Keep,
    /// It starts anew, to run out after this span.
    Restart(Duration),
}

/// A call that handed something out starts the timer anew; no other does.
pub open spec fn timer_step(handed_out: bool, timeout: Duration) -> TimerStep {
    if handed_out {
        TimerStep::Restart(timeout)
    } else {
        TimerStep::Keep
    }
}

/// What becomes of the idle timer after a read: it starts anew where bytes were
/// delivered, and runs on where the read failed or has to wait.
pub fn timer_after_read(step: &ReadStep, timeout: &Duration) -> (timer: TimerStep)
    ensures
        timer == timer_step(*step is Delivered, *timeout),
        *step is Delivered ==> timer == TimerStep::Restart(*timeout),
        *step !is Delivered ==> timer is Keep,
{
    match step {
        ReadStep::Delivered => TimerStep::Restart(*timeout),
        ReadStep::Fail(_) | ReadStep::AwaitDatagram => TimerStep::Keep,
    }
}

/// What becomes of the idle timer after a call for a whole datagram: it starts
/// anew where one was received, and runs on where the call failed or has to wait.
pub fn timer_after_receive(step: &ReceiveStep, timeout: &Duration) -> (timer: TimerStep)
    ensures
        timer == timer_step(*step is Received, *timeout),
        *step is Received ==> timer == TimerStep::Restart(*timeout),
        *step !is Received ==> timer is Keep,
{
    match step {
        ReceiveStep::Received(_) => TimerStep::Restart(*timeout),
        ReceiveStep::Fail(_) | ReceiveStep::AwaitDatagram => TimerStep::Keep,
    }
}

/// The instant at which the timer runs out, where a call made at `now` is
/// followed by this step. Instants are nanoseconds since some fixed one.
pub open spec fn deadline_after(deadline: nat, timer: TimerStep, now: nat) -> nat {
    match timer {
        TimerStep::Keep => deadline,
        TimerStep::Restart(timeout) => now + timeout@,
    }
}

/// A timer with this deadline has run out.
pub open spec fn has_fired(deadline: nat, now: nat) -> bool {
    deadline <= now
}

/// How a call on the read side ended.
pub enum End {
    Read(ReadStep),
    Receive(ReceiveStep),
}

impl End {
    /// The call handed something out.
    pub open spec fn handed_out(self) -> bool {
        match self {
            End::Read(step) => step is Delivered,
            End::Receive(step) => step is Received,
        }
    }

    /// The call ended in the timeout.
    pub open spec fn timed_out(self, timeout: nat) -> bool {
        match self {
            End::Read(ReadStep::Fail(e)) => e.says(ErrorKind::TimedOut, timeout_message(timeout)),
            End::Receive(ReceiveStep::Fail(e)) => e.says(
                ErrorKind::TimedOut,
                timeout_message(timeout),
            ),
            _ => false,
        }
    }
}

/// A call on the read side: when it was made, what was left over of a datagram
/// then, what the channel answers, and how the call ended.
pub struct TimedCall {
    pub now: nat,
    pub remaining: Option<Bytes>,
    pub incoming: Polled<Option<Bytes>>,
    pub end: End,
}

impl TimedCall {
    /// The channel has a datagram.
    pub open spec fn datagram_waits(self) -> bool {
        self.incoming matches Polled::Ready(Some(_))
    }

    /// The call ended as it has to, where the timer had this deadline.
    pub open spec fn ends_right(self, deadline: nat, timeout: nat) -> bool {
        let fired = has_fired(deadline, self.now);
        match self.end {
            End::Read(step) => read_end(step, self.remaining, fired, timeout, self.incoming),
            End::Receive(step) => receive_end(step, self.remaining, fired, timeout, self.incoming),
        }
    }

    /// The deadline after the call.
    pub open spec fn deadline(self, deadline: nat, timeout: Duration) -> nat {
        deadline_after(deadline, timer_step(self.end.handed_out(), timeout), self.now)
    }
}

/// The calls end as they have to, one after the other, from this deadline on.
pub open spec fn calls_end_right(deadline: nat, timeout: Duration, calls: Seq<TimedCall>) -> bool
    decreases calls.len(),
{
    calls.len() > 0 ==> {
        &&& calls.first().ends_right(deadline, timeout@)
        &&& calls_end_right(
            calls.first().deadline(deadline, timeout),
            timeout,
            calls.drop_first(),
        )
    }
}

/// The deadline after a run of calls.
pub open spec fn deadline_after_all(
    deadline: nat,
    timeout: Duration,
    calls: Seq<TimedCall>,
) -> nat
    decreases calls.len(),
{
    if calls.len() == 0 {
        deadline
    } else {
        deadline_after_all(
            calls.first().deadline(deadline, timeout),
            timeout,
            calls.drop_first(),
        )
    }
}

/// A call that hands something out, be it left over or fresh from the channel,
/// moves the deadline to one timeout from now. A call that fails or has to wait
/// leaves the deadline alone.
pub proof fn idle_timer_restarts_on_success_alone(
    call: TimedCall,
    deadline: nat,
    timeout: Duration,
)
    requires
        call.ends_right(deadline, timeout@),
    ensures
        call.end.handed_out() ==> call.deadline(deadline, timeout) == call.now + timeout@,
        !call.end.handed_out() ==> call.deadline(deadline, timeout) == deadline,
        call.end is Read ==> (call.end.handed_out() <==> !has_fired(deadline, call.now) && (
        call.remaining is Some || call.datagram_waits())),
        call.end is Receive ==> (call.end.handed_out() <==> !has_fired(deadline, call.now)
            && call.remaining is None && call.datagram_waits()),
{
}

/// Once the timer of a stream has run out, the deadline stays as it is: every
/// later read ends in the timeout, and so does every later call for a whole
/// datagram, but for those refused because of what is left over.
pub proof fn timed_out_stream_stays_timed_out(
    deadline: nat,
    timeout: Duration,
    calls: Seq<TimedCall>,
)
    requires
        calls_end_right(deadline, timeout, calls),
        forall|i: int| 0 <= i < calls.len() ==> has_fired(deadline, (#[trigger] calls[i]).now),
    ensures
        deadline_after_all(deadline, timeout, calls) == deadline,
        forall|i: int|
            0 <= i < calls.len() ==> {
                &&& !(#[trigger] calls[i]).end.handed_out()
                &&& calls[i].end is Read || calls[i].remaining is None ==> calls[i].end.timed_out(
                    timeout@,
                )
            },
    decreases calls.len(),
{
    if calls.len() > 0 {
        let rest = calls.drop_first();
        assert(has_fired(deadline, calls[0].now));
        assert forall|i: int| 0 <= i < rest.len() implies has_fired(
            deadline,
            (#[trigger] rest[i]).now,
        ) by {
            assert(rest[i] == calls[i + 1]);
        }
        timed_out_stream_stays_timed_out(deadline, timeout, rest);
        assert forall|i: int| 0 <= i < calls.len() implies {
            &&& !(#[trigger] calls[i]).end.handed_out()
            &&& calls[i].end is Read || calls[i].remaining is None ==> calls[i].end.timed_out(
                timeout@,
            )
        } by {
            if i > 0 {
                assert(rest[i - 1] == calls[i]);
            }
        }
    }
}

/// After a call that hands something out, a call less than one timeout later
/// finds the timer running.
pub proof fn stream_in_use_does_not_time_out(
    first: TimedCall,
    next: TimedCall,
    deadline: nat,
    timeout: Duration,
)
    requires
        first.ends_right(deadline, timeout@),
        first.end.handed_out(),
        next.now < first.now + timeout@,
        next.ends_right(first.deadline(deadline, timeout), timeout@),
    ensures
        !has_fired(first.deadline(deadline, timeout), next.now),
        next.end is Read && (next.remaining is Some || next.datagram_waits())
            ==> next.end.handed_out(),
        next.end is Receive && next.remaining is None && next.datagram_waits()
            ==> next.end.handed_out(),
{
}

/// A call that handed something out starts the timer anew for the whole timeout,
/// however long that is; any other leaves it alone.
pub proof fn the_timer_restarts_for_the_whole_timeout(timeout: Duration, deadline: nat, now: nat)
    ensures
        timer_step(true, timeout) == TimerStep::Restart(timeout),
        timer_step(false, timeout) is Keep,
        deadline_after(deadline, TimerStep::Restart(timeout), now) == now + timeout@,
        deadline_after(deadline, TimerStep::Keep, now) == deadline,
        has_fired(deadline, now) <==> now >= deadline,
{
}

} // verus!
