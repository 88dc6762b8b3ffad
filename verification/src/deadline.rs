//! Deadlines of the probe's socket waits: the timeout that bounds a stream
//! by the experiment deadline, and the decisions of a bounded UDP wait.
use vstd::prelude::*;
use crate::error::ErrorKind;

verus! {

/// The timeout of a stream bounded by a deadline: the time left, or the
/// phase limit when that is shorter; none once the deadline has come.
pub open spec fn stream_timeout_of(now_ms: u64, deadline_ms: u64, phase_limit_ms: Option<u64>) -> Result<
    u64,
    ErrorKind,
> {
    if now_ms >= deadline_ms {
        Err(ErrorKind::TimedOut)
    } else {
        let remaining = (deadline_ms - now_ms) as u64;
        match phase_limit_ms {
            Some(limit) => Ok(
                if limit < remaining {
                    limit
                } else {
                    remaining
                },
            ),
            None => Ok(remaining),
        }
    }
}

/// A stream timeout never outlasts the deadline or the phase limit: it is
/// positive unless the phase limit is zero, ends no later than the
/// deadline, is no longer than the phase limit, and is the whole time left
/// unless the phase limit is shorter; once the deadline has come there is
/// none.
pub proof fn law_stream_timeout_is_bounded(now_ms: u64, deadline_ms: u64, phase_limit_ms: Option<u64>)
    ensures
        stream_timeout_of(now_ms, deadline_ms, phase_limit_ms) is Err <==> now_ms >= deadline_ms,
        stream_timeout_of(now_ms, deadline_ms, phase_limit_ms) matches Ok(t) ==> {
            &&& (phase_limit_ms != Some(0u64) ==> 0 < t)
            &&& now_ms + t <= deadline_ms
            &&& (phase_limit_ms matches Some(l) ==> t <= l)
            &&& (t == deadline_ms - now_ms || phase_limit_ms == Some(t))
        },
{
}

/// The read and write timeout, in milliseconds, of a stream bounded by the
/// experiment deadline and an optional limit of its phase.
pub fn stream_timeout(now_ms: u64, deadline_ms: u64, phase_limit_ms: Option<u64>) -> (r: Result<
    u64,
    ErrorKind,
>)
    ensures
        r == stream_timeout_of(now_ms, deadline_ms, phase_limit_ms),
{
    if now_ms >= deadline_ms {
        return Err(ErrorKind::TimedOut);
    }
    let remaining = deadline_ms - now_ms;
    match phase_limit_ms {
        Some(limit) => Ok(
            if limit < remaining {
                limit
            } else {
                remaining
            },
        ),
        None => Ok(remaining),
    }
}

/// What a bounded UDP wait does next.
#[derive(Clone, Copy, Debug, PartialEq, Eq, Structural)]
pub enum UdpWaitStep {
    /// Shutdown was asked for: the wait ends.
    Shutdown,
    /// The deadline has come: the wait ends.
    Deadline,
    /// Poll the socket once more.
    Receive,
}

/// The next step of a bounded UDP wait: a shutdown request is honoured
/// first, then the deadline; otherwise the socket is polled.
pub fn udp_wait_step(shutdown: bool, now_ms: u64, deadline_ms: u64) -> (s: UdpWaitStep)
    ensures
        shutdown ==> s == UdpWaitStep::Shutdown,
        !shutdown && now_ms >= deadline_ms ==> s == UdpWaitStep::Deadline,
        !shutdown && now_ms < deadline_ms ==> s == UdpWaitStep::Receive,
{
    if shutdown {
        UdpWaitStep::Shutdown
    } else if now_ms >= deadline_ms {
        UdpWaitStep::Deadline
    } else {
        UdpWaitStep::Receive
    }
}

/// Whether a failed poll of the socket ends the wait: a poll that timed out
/// or would block does not; any other failure does.
pub fn udp_poll_failure_ends_wait(kind: ErrorKind) -> (r: bool)
    ensures
        r == !kind.is_poll_timeout(),
{
    !(kind == ErrorKind::WouldBlock || kind == ErrorKind::TimedOut)
}

} // verus!
