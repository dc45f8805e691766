use vstd::prelude::*;
use crate::duration::Duration;
use crate::error::{ErrorKind, IoError, EINPROGRESS, EINTR};
use crate::time::Instant;

verus! {

/// The error for a zero timeout.
pub open spec fn zero_timeout_error() -> IoError {
    IoError::SimpleMessage(ErrorKind::InvalidInput, "cannot set a 0 duration timeout")
}

/// The error once the deadline has passed.
pub open spec fn timed_out_error() -> IoError {
    IoError::SimpleMessage(ErrorKind::TimedOut, "connection timed out")
}

/// Milliseconds to wait for readiness when `remaining` nanoseconds are left:
/// rounded down, but at least one so that the wait never spins, and at most
/// what the poll call can take.
pub open spec fn wait_millis_spec(remaining: int) -> int {
    let ms = remaining / 1_000_000;
    if ms < 1 {
        1
    } else if ms > i32::MAX {
        i32::MAX as int
    } else {
        ms
    }
}

/// Time from `start` to `now`, or zero where the clock went back.
pub open spec fn elapsed_spec(start: int, now: int) -> int {
    if now >= start {
        now - start
    } else {
        0
    }
}

/// Connect-with-deadline never overshoots its deadline by more than one
/// poll quantum: with `elapsed` of the timeout gone and some time left, the
/// poll waits at least a millisecond and ends less than a millisecond past
/// the deadline.
pub proof fn lemma_poll_within_deadline(timeout: int, elapsed: int)
    requires
        0 <= elapsed < timeout,
    ensures
        wait_millis_spec(timeout - elapsed) >= 1,
        elapsed + wait_millis_spec(timeout - elapsed) * 1_000_000 < timeout + 1_000_000,
{
    let rem = timeout - elapsed;
    let ms = rem / 1_000_000;
    assert(ms * 1_000_000 <= rem) by (nonlinear_arith)
        requires
            ms == rem / 1_000_000,
            rem > 0,
    ;
}

/// The error code of a connect call that returned `ret` and left `err` in
/// `errno`, or `None` where it succeeded. Any negative return is failure:
/// -1 reports the code in `errno`, and another negative value carries its
/// code negated, as `cvt` reads it (the least `i32`, which has no negation,
/// falls back to `errno`).
pub open spec fn connect_failure(ret: i32, err: i32) -> Option<i32> {
    if ret >= 0 {
        None
    } else if ret == -1 || ret == i32::MIN {
        Some(err)
    } else {
        Some((-ret) as i32)
    }
}

/// The poll wait for `remaining` nanoseconds.
pub fn wait_millis(remaining: Duration) -> (r: i32)
    ensures
        r == wait_millis_spec(remaining@),
{
    let secs = remaining.as_secs();
    let sub: u64 = (remaining.subsec_nanos() / 1_000_000) as u64;
    proof {
        vstd::arithmetic::div_mod::lemma_fundamental_div_mod(remaining@, 1_000_000_000);
        vstd::arithmetic::div_mod::lemma_div_denominator(remaining@, 1_000_000, 1_000);
        assert(remaining@ / 1_000_000 == secs * 1_000 + sub) by (nonlinear_arith)
            requires
                remaining@ == 1_000_000_000 * secs + remaining@ % 1_000_000_000,
                sub == (remaining@ % 1_000_000_000) / 1_000_000,
                0 <= remaining@ % 1_000_000_000 < 1_000_000_000,
                remaining@ >= 0,
        ;
    }
    if secs > (i32::MAX as u64) / 1_000 {
        return i32::MAX;
    }
    let ms: u64 = secs * 1_000 + sub;
    if ms == 0 {
        1
    } else if ms > i32::MAX as u64 {
        i32::MAX
    } else {
        ms as i32
    }
}

/// Where connect-with-deadline stands.
#[derive(Clone, Copy, Debug, PartialEq, Eq, Structural)]
pub enum ConnectPhase {
    /// Nothing done yet.
    Idle,
    /// Waiting for non-blocking mode to be switched on.
    EnablingNonblocking,
    /// Waiting for the non-blocking connect to return.
    Connecting,
    /// Waiting for the socket's prior mode to come back; holds the error
    /// code that connect failed with, if it did.
    RestoringMode(Option<i32>),
    /// Waiting for the clock reading that starts the deadline.
    Starting,
    /// Waiting for a clock reading to compare with the deadline.
    Waiting,
    /// Waiting for the readiness poll to return.
    Polling,
    /// Finished.
    Done,
}

/// What the caller is to do next.
#[derive(Debug, PartialEq, Eq)]
pub enum ConnectAction {
    /// Switch the socket's non-blocking mode on or off.
    SetNonblocking(bool),
    /// Issue the connect call on the socket.
    Connect,
    /// Read the monotonic clock.
    ReadClock,
    /// Poll the socket for write readiness for at most this many milliseconds.
    Poll(i32),
    /// Stop with this outcome.
    Finish(Result<(), IoError>),
}

/// What happened when the caller did the last action.
#[derive(Debug, PartialEq, Eq)]
pub enum ConnectEvent {
    /// Outcome of switching the non-blocking mode.
    NonblockingSet(Result<(), IoError>),
    /// Return value of connect, and the error code it left in `errno`
    /// where that value is -1.
    ConnectReturned(i32, i32),
    /// A clock reading.
    Clock(Instant),
    /// Number of ready descriptors from poll, and the error code it left
    /// where that is negative.
    PollReturned(i32, i32),
}

/// The decisions of connecting a socket with a deadline. The caller performs
/// each action on the socket and the clock and hands back what happened.
/// The socket is switched to non-blocking mode for the connect call only and
/// then back to the mode it had before, so readiness is polled in that prior
/// mode. Every path that switched the mode on switches it back before
/// finishing; the one exception is a failure of that switch back itself,
/// which ends the call with the socket still non-blocking. Once poll reports
/// the socket writable the connection counts as made, without reading the
/// socket's pending error.
pub struct ConnectTimeout {
    timeout: Duration,
    was_nonblocking: bool,
    start: Instant,
    phase: ConnectPhase,
}

impl ConnectTimeout {
    pub closed spec fn timeout(self) -> Duration {
        self.timeout
    }

    /// Whether the socket was in non-blocking mode before the call.
    pub closed spec fn was_nonblocking(self) -> bool {
        self.was_nonblocking
    }

    pub closed spec fn start(self) -> Instant {
        self.start
    }

    pub closed spec fn phase(self) -> ConnectPhase {
        self.phase
    }

    /// Whether `ev` answers the action that the machine asked for last.
    pub open spec fn accepts(self, ev: ConnectEvent) -> bool {
        match self.phase() {
            ConnectPhase::EnablingNonblocking => ev is NonblockingSet,
            ConnectPhase::RestoringMode(_) => ev is NonblockingSet,
            ConnectPhase::Connecting => ev is ConnectReturned,
            ConnectPhase::Starting => ev is Clock,
            ConnectPhase::Waiting => ev is Clock,
            ConnectPhase::Polling => ev is PollReturned,
            _ => false,
        }
    }

    /// A machine for connecting within `timeout`.
    /// `was_nonblocking` is the socket's mode before the call, which the
    /// machine restores.
    pub fn new(timeout: Duration, was_nonblocking: bool) -> (r: ConnectTimeout)
        ensures
            r.timeout() == timeout,
            r.was_nonblocking() == was_nonblocking,
            r.phase() == ConnectPhase::Idle,
    {
        ConnectTimeout { timeout, was_nonblocking, start: Instant::zero(), phase: ConnectPhase::Idle }
    }

    pub fn is_done(&self) -> (r: bool)
        ensures
            r == (self.phase() is Done),
    {
        match self.phase {
            ConnectPhase::Done => true,
            _ => false,
        }
    }

    /// The first action. A zero timeout is refused before anything touches
    /// the socket; otherwise the socket is first made non-blocking.
    pub fn begin(&mut self) -> (r: ConnectAction)
        requires
            old(self).phase() == ConnectPhase::Idle,
        ensures
            final(self).timeout() == old(self).timeout(),
            final(self).was_nonblocking() == old(self).was_nonblocking(),
            old(self).timeout()@ == 0 ==> r == ConnectAction::Finish(Err(zero_timeout_error()))
                && final(self).phase() == ConnectPhase::Done,
            old(self).timeout()@ != 0 ==> r == ConnectAction::SetNonblocking(true)
                && final(self).phase() == ConnectPhase::EnablingNonblocking,
    {
        if self.timeout.is_zero() {
            self.phase = ConnectPhase::Done;
            ConnectAction::Finish(
                Err(IoError::SimpleMessage(ErrorKind::InvalidInput, "cannot set a 0 duration timeout")),
            )
        } else {
            self.phase = ConnectPhase::EnablingNonblocking;
            ConnectAction::SetNonblocking(true)
        }
    }

    /// The next action, given what the last one did.
    pub fn step(&mut self, ev: ConnectEvent) -> (r: ConnectAction)
        requires
            old(self).accepts(ev),
            old(self).timeout()@ != 0,
        ensures
            final(self).timeout() == old(self).timeout(),
            final(self).was_nonblocking() == old(self).was_nonblocking(),
            final(self).phase() is Done <==> r is Finish,
            // Switching non-blocking mode on either fails, ending the call,
            // or is followed by the connect.
            old(self).phase() is EnablingNonblocking ==> match ev {
                ConnectEvent::NonblockingSet(Err(e)) => r == ConnectAction::Finish(Err(e)),
                _ => r == ConnectAction::Connect && final(self).phase() == ConnectPhase::Connecting,
            },
            // Whatever connect gave, the prior mode is restored next.
            old(self).phase() is Connecting ==> r == ConnectAction::SetNonblocking(
                old(self).was_nonblocking(),
            ) && final(self).phase() == ConnectPhase::RestoringMode(
                match ev {
                    ConnectEvent::ConnectReturned(ret, err) => connect_failure(ret, err),
                    _ => None,
                },
            ),
            // Once the prior mode is back, connect's outcome decides: an
            // immediate outcome is final, a connect in progress is polled.
            old(self).phase() matches ConnectPhase::RestoringMode(failed) ==> match ev {
                ConnectEvent::NonblockingSet(Err(e)) => r == ConnectAction::Finish(Err(e)),
                _ => match failed {
                    None => r == ConnectAction::Finish(Ok(())),
                    Some(code) => if code == EINPROGRESS {
                        r == ConnectAction::ReadClock && final(self).phase() == ConnectPhase::Starting
                    } else {
                        r == ConnectAction::Finish(Err(IoError::Os(code)))
                    },
                },
            },
            // The first reading starts the deadline.
            old(self).phase() is Starting ==> match ev {
                ConnectEvent::Clock(t) => final(self).start() == t && final(self).phase()
                    == ConnectPhase::Polling && r == ConnectAction::Poll(
                    wait_millis_spec(old(self).timeout()@) as i32,
                ),
                _ => true,
            },
            // Later readings end the call once the timeout has elapsed, and
            // otherwise poll for no longer than the time that is left.
            old(self).phase() is Waiting ==> final(self).start() == old(self).start() && match ev {
                ConnectEvent::Clock(now) => {
                    let elapsed = elapsed_spec(old(self).start()@, now@);
                    if elapsed >= old(self).timeout()@ {
                        r == ConnectAction::Finish(Err(timed_out_error()))
                    } else {
                        r == ConnectAction::Poll(
                            wait_millis_spec(old(self).timeout()@ - elapsed) as i32,
                        ) && final(self).phase() == ConnectPhase::Polling
                    }
                },
                _ => true,
            },
            // A ready socket is success; an interrupted or expired poll goes
            // back to the clock; any other failure ends the call.
            old(self).phase() is Polling ==> final(self).start() == old(self).start() && match ev {
                ConnectEvent::PollReturned(n, err) => if n > 0 {
                    r == ConnectAction::Finish(Ok(()))
                } else if n == 0 || err == EINTR {
                    r == ConnectAction::ReadClock && final(self).phase() == ConnectPhase::Waiting
                } else {
                    r == ConnectAction::Finish(Err(IoError::Os(err)))
                },
                _ => true,
            },
    {
        let phase = self.phase;
        self.phase = ConnectPhase::Done;
        match phase {
            ConnectPhase::EnablingNonblocking => match ev {
                ConnectEvent::NonblockingSet(Err(e)) => ConnectAction::Finish(Err(e)),
                _ => {
                    self.phase = ConnectPhase::Connecting;
                    ConnectAction::Connect
                },
            },
            ConnectPhase::Connecting => {
                let failed = match ev {
                    ConnectEvent::ConnectReturned(ret, err) => if ret >= 0 {
                        None
                    } else if ret == -1 || ret == i32::MIN {
                        Some(err)
                    } else {
                        Some(-ret)
                    },
                    _ => None,
                };
                self.phase = ConnectPhase::RestoringMode(failed);
                ConnectAction::SetNonblocking(self.was_nonblocking)
            },
            ConnectPhase::RestoringMode(failed) => match ev {
                ConnectEvent::NonblockingSet(Err(e)) => ConnectAction::Finish(Err(e)),
                _ => match failed {
                    None => ConnectAction::Finish(Ok(())),
                    Some(code) => if code == EINPROGRESS {
                        self.phase = ConnectPhase::Starting;
                        ConnectAction::ReadClock
                    } else {
                        ConnectAction::Finish(Err(IoError::from_raw_os_error(code)))
                    },
                },
            },
            ConnectPhase::Starting => match ev {
                ConnectEvent::Clock(t) => {
                    self.start = t;
                    self.phase = ConnectPhase::Polling;
                    ConnectAction::Poll(wait_millis(self.timeout))
                },
                _ => ConnectAction::Finish(Ok(())),
            },
            ConnectPhase::Waiting => match ev {
                ConnectEvent::Clock(now) => {
                    let elapsed = match now.checked_sub_instant(&self.start) {
                        Some(d) => d,
                        None => Duration::zero(),
                    };
                    match self.timeout.checked_sub(elapsed) {
                        Some(left) => if left.is_zero() {
                            ConnectAction::Finish(
                                Err(IoError::SimpleMessage(ErrorKind::TimedOut, "connection timed out")),
                            )
                        } else {
                            self.phase = ConnectPhase::Polling;
                            ConnectAction::Poll(wait_millis(left))
                        },
                        None => ConnectAction::Finish(
                            Err(IoError::SimpleMessage(ErrorKind::TimedOut, "connection timed out")),
                        ),
                    }
                },
                _ => ConnectAction::Finish(Ok(())),
            },
            ConnectPhase::Polling => match ev {
                ConnectEvent::PollReturned(n, err) => if n > 0 {
                    ConnectAction::Finish(Ok(()))
                } else if n == 0 || err == EINTR {
                    self.phase = ConnectPhase::Waiting;
                    ConnectAction::ReadClock
                } else {
                    ConnectAction::Finish(Err(IoError::from_raw_os_error(err)))
                },
                _ => ConnectAction::Finish(Ok(())),
            },
            _ => ConnectAction::Finish(Ok(())),
        }
    }
}

} // verus!
