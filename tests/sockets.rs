use horizon_pal::connect::{wait_millis, ConnectAction, ConnectEvent, ConnectTimeout};
use horizon_pal::duration::Duration;
use horizon_pal::error::{unsupported_err, ErrorKind, IoError, EINPROGRESS, EINTR, EISCONN};
use horizon_pal::netinit::NetworkInit;
use horizon_pal::resolver::{
    cvt_gai, gai_result, lookup_error, no_data_error, on_resolver_failure, GaiOutcome, EAI_NODATA, EAI_SYSTEM,
};
use horizon_pal::socket::{
    connect_step, nonblocking_flags, shutdown_how, take_error_from_raw, timeout_timeval,
    timeval_timeout, Shutdown, Socket, Timeval, O_NONBLOCK,
};
use horizon_pal::time::Instant;

fn at(nanos: u64) -> Instant {
    Instant::zero().checked_add_duration(&Duration::from_nanos(nanos)).unwrap()
}

fn timed_out() -> IoError {
    IoError::SimpleMessage(ErrorKind::TimedOut, "connection timed out")
}

/// Drives the machine from its start to the first poll, connect being in
/// progress.
fn up_to_first_poll(m: &mut ConnectTimeout, start: Instant) -> ConnectAction {
    assert_eq!(m.begin(), ConnectAction::SetNonblocking(true));
    assert_eq!(m.step(ConnectEvent::NonblockingSet(Ok(()))), ConnectAction::Connect);
    assert_eq!(
        m.step(ConnectEvent::ConnectReturned(-1, EINPROGRESS)),
        ConnectAction::SetNonblocking(false)
    );
    assert_eq!(m.step(ConnectEvent::NonblockingSet(Ok(()))), ConnectAction::ReadClock);
    m.step(ConnectEvent::Clock(start))
}

#[test]
fn zero_timeout_fails_before_any_call() {
    let mut m = ConnectTimeout::new(Duration::zero(), false);
    assert_eq!(
        m.begin(),
        ConnectAction::Finish(Err(IoError::SimpleMessage(
            ErrorKind::InvalidInput,
            "cannot set a 0 duration timeout"
        )))
    );
    assert!(m.is_done());
}

#[test]
fn immediate_connect_restores_blocking_and_succeeds() {
    let mut m = ConnectTimeout::new(Duration::from_secs(1), false);
    assert_eq!(m.begin(), ConnectAction::SetNonblocking(true));
    assert_eq!(m.step(ConnectEvent::NonblockingSet(Ok(()))), ConnectAction::Connect);
    assert_eq!(m.step(ConnectEvent::ConnectReturned(0, 0)), ConnectAction::SetNonblocking(false));
    assert_eq!(m.step(ConnectEvent::NonblockingSet(Ok(()))), ConnectAction::Finish(Ok(())));
    assert!(m.is_done());
}

#[test]
fn refused_connect_restores_blocking_then_fails() {
    let mut m = ConnectTimeout::new(Duration::from_secs(1), false);
    m.begin();
    m.step(ConnectEvent::NonblockingSet(Ok(())));
    assert_eq!(m.step(ConnectEvent::ConnectReturned(-1, 111)), ConnectAction::SetNonblocking(false));
    assert_eq!(
        m.step(ConnectEvent::NonblockingSet(Ok(()))),
        ConnectAction::Finish(Err(IoError::Os(111)))
    );
}

#[test]
fn failing_mode_switch_ends_the_call() {
    let mut m = ConnectTimeout::new(Duration::from_secs(1), false);
    m.begin();
    assert_eq!(
        m.step(ConnectEvent::NonblockingSet(Err(IoError::Os(9)))),
        ConnectAction::Finish(Err(IoError::Os(9)))
    );
}

#[test]
fn poll_readiness_is_success() {
    let mut m = ConnectTimeout::new(Duration::new(0, 250_000_000), false);
    assert_eq!(up_to_first_poll(&mut m, at(1_000)), ConnectAction::Poll(250));
    assert_eq!(m.step(ConnectEvent::PollReturned(1, 0)), ConnectAction::Finish(Ok(())));
}

#[test]
fn deadline_passes_after_empty_polls() {
    let mut m = ConnectTimeout::new(Duration::new(0, 250_000_000), false);
    assert_eq!(up_to_first_poll(&mut m, at(1_000)), ConnectAction::Poll(250));
    assert_eq!(m.step(ConnectEvent::PollReturned(0, 0)), ConnectAction::ReadClock);
    // 100.5 ms have passed: 149.5 ms are left
    assert_eq!(m.step(ConnectEvent::Clock(at(100_501_000))), ConnectAction::Poll(149));
    // interrupted: back to the clock
    assert_eq!(m.step(ConnectEvent::PollReturned(-1, EINTR)), ConnectAction::ReadClock);
    // 0.2 ms left: the wait is rounded up to one millisecond
    assert_eq!(m.step(ConnectEvent::Clock(at(249_801_000))), ConnectAction::Poll(1));
    assert_eq!(m.step(ConnectEvent::PollReturned(0, 0)), ConnectAction::ReadClock);
    // exactly at the deadline
    assert_eq!(m.step(ConnectEvent::Clock(at(250_001_000))), ConnectAction::Finish(Err(timed_out())));
    assert!(m.is_done());
}

#[test]
fn poll_failure_ends_the_call() {
    let mut m = ConnectTimeout::new(Duration::from_secs(2), false);
    assert_eq!(up_to_first_poll(&mut m, at(0)), ConnectAction::Poll(2_000));
    assert_eq!(m.step(ConnectEvent::PollReturned(-1, 12)), ConnectAction::Finish(Err(IoError::Os(12))));
}

#[test]
fn wait_is_clamped() {
    assert_eq!(wait_millis(Duration::from_nanos(1)), 1);
    assert_eq!(wait_millis(Duration::from_nanos(1_999_999)), 1);
    assert_eq!(wait_millis(Duration::new(3, 7_000_000)), 3_007);
    assert_eq!(wait_millis(Duration::from_secs(10_000_000)), i32::MAX);
    assert_eq!(wait_millis(Duration::max_value()), i32::MAX);
}

#[test]
fn nonblocking_twice_writes_once() {
    let first = nonblocking_flags(0x2, true);
    assert_eq!(first, Some(0x2 | O_NONBLOCK));
    let second = nonblocking_flags(first.unwrap(), true);
    assert_eq!(second, None);
    assert_eq!(nonblocking_flags(0x2 | O_NONBLOCK, false), Some(0x2));
    assert_eq!(nonblocking_flags(0x2, false), None);
}

#[test]
fn timeouts_encode() {
    let zero = IoError::SimpleMessage(ErrorKind::InvalidInput, "cannot set a 0 duration timeout");
    assert_eq!(timeout_timeval(Some(Duration::zero())), Err(zero));
    assert_eq!(timeout_timeval(None), Ok(Timeval { tv_sec: 0, tv_usec: 0 }));
    assert_eq!(timeout_timeval(Some(Duration::from_nanos(500))), Ok(Timeval { tv_sec: 0, tv_usec: 1 }));
    assert_eq!(
        timeout_timeval(Some(Duration::new(2, 345_678_000))),
        Ok(Timeval { tv_sec: 2, tv_usec: 345_678 })
    );
    assert_eq!(
        timeout_timeval(Some(Duration::from_secs(1 << 40))),
        Ok(Timeval { tv_sec: i32::MAX, tv_usec: 0 })
    );
}

#[test]
fn timeouts_decode() {
    assert_eq!(timeval_timeout(Timeval { tv_sec: 0, tv_usec: 0 }), None);
    assert_eq!(
        timeval_timeout(Timeval { tv_sec: 2, tv_usec: 345_678 }),
        Some(Duration::new(2, 345_678_000))
    );
    assert_eq!(timeval_timeout(Timeval { tv_sec: 0, tv_usec: 1 }), Some(Duration::from_nanos(1_000)));
    assert_eq!(
        timeval_timeout(Timeval { tv_sec: -1, tv_usec: 5 }),
        Some(Duration::new(u64::MAX, 5_000))
    );
}

#[test]
fn linger_is_unsupported() {
    let s = Socket::from_inner(3);
    assert_eq!(s.set_linger(Some(Duration::from_secs(1))), Err(unsupported_err()));
    assert_eq!(s.set_linger(None), Err(unsupported_err()));
    assert_eq!(s.linger(), Err(unsupported_err()));
}

#[test]
fn socket_descriptor_round_trip() {
    let s = Socket::from_inner(7);
    assert_eq!(s.as_raw(), 7);
    assert_eq!(s.as_raw_fd(), 7);
    assert!(!s.is_read_vectored());
    assert!(!s.is_write_vectored());
    assert_eq!(s.into_inner(), 7);
    assert_eq!(Socket::from_inner(8).into_raw_fd(), 8);
}

#[test]
fn shutdown_codes() {
    assert_eq!(shutdown_how(Shutdown::Read), 0);
    assert_eq!(shutdown_how(Shutdown::Write), 1);
    assert_eq!(shutdown_how(Shutdown::Both), 2);
}

#[test]
fn pending_error() {
    assert_eq!(take_error_from_raw(0), None);
    assert_eq!(take_error_from_raw(104), Some(IoError::Os(104)));
}

#[test]
fn blocking_connect_steps() {
    assert_eq!(connect_step(0, 0), Some(Ok(())));
    assert_eq!(connect_step(-1, EINTR), None);
    assert_eq!(connect_step(-1, EISCONN), Some(Ok(())));
    assert_eq!(connect_step(-1, 111), Some(Err(IoError::Os(111))));
}

#[test]
fn resolver_no_data_probes_network() {
    assert_eq!(cvt_gai(EAI_NODATA), GaiOutcome::ProbeNetwork);
    assert_eq!(no_data_error(false), IoError::Simple(ErrorKind::NetworkDown));
    assert_eq!(
        no_data_error(true),
        IoError::SimpleMessage(ErrorKind::Other, "an unknown networking error has occurred")
    );
    assert_eq!(no_data_error(true).kind(), ErrorKind::Other);
}

#[test]
fn resolver_codes() {
    assert_eq!(cvt_gai(0), GaiOutcome::Success);
    assert_eq!(cvt_gai(EAI_SYSTEM), GaiOutcome::LastOsError);
    assert_eq!(cvt_gai(2), GaiOutcome::Describe);
    assert_eq!(
        lookup_error("bad"),
        IoError::Custom(ErrorKind::Other, "failed to lookup address information: bad".to_string())
    );
}

#[test]
fn resolver_cache_reset_only_for_old_glibc() {
    assert!(on_resolver_failure(Some((2, 25))));
    assert!(on_resolver_failure(Some((1, 40))));
    assert!(!on_resolver_failure(Some((2, 26))));
    assert!(!on_resolver_failure(Some((3, 0))));
    assert!(!on_resolver_failure(None));
}

#[test]
fn network_brought_up_once() {
    let mut n = NetworkInit::new();
    assert!(!n.is_ready());
    assert!(n.start());
    assert!(!n.start());
    assert_eq!(n.poll(true), Some(Duration::from_secs(1)));
    assert!(!n.is_ready());
    assert_eq!(n.poll(false), None);
    assert!(n.is_ready());
    assert!(!n.start());
}

#[test]
fn prior_nonblocking_mode_is_restored() {
    let mut m = ConnectTimeout::new(Duration::from_secs(1), true);
    assert_eq!(m.begin(), ConnectAction::SetNonblocking(true));
    assert_eq!(m.step(ConnectEvent::NonblockingSet(Ok(()))), ConnectAction::Connect);
    assert_eq!(m.step(ConnectEvent::ConnectReturned(0, 0)), ConnectAction::SetNonblocking(true));
    assert_eq!(m.step(ConnectEvent::NonblockingSet(Ok(()))), ConnectAction::Finish(Ok(())));
    let mut m = ConnectTimeout::new(Duration::from_secs(1), false);
    m.begin();
    m.step(ConnectEvent::NonblockingSet(Ok(())));
    assert_eq!(
        m.step(ConnectEvent::ConnectReturned(-1, EINPROGRESS)),
        ConnectAction::SetNonblocking(false)
    );
}

#[test]
fn negative_connect_return_is_failure() {
    let mut m = ConnectTimeout::new(Duration::from_secs(1), false);
    m.begin();
    m.step(ConnectEvent::NonblockingSet(Ok(())));
    m.step(ConnectEvent::ConnectReturned(-EINPROGRESS, 0));
    assert_eq!(m.step(ConnectEvent::NonblockingSet(Ok(()))), ConnectAction::ReadClock);
    let mut m = ConnectTimeout::new(Duration::from_secs(1), false);
    m.begin();
    m.step(ConnectEvent::NonblockingSet(Ok(())));
    m.step(ConnectEvent::ConnectReturned(-111, 0));
    assert_eq!(
        m.step(ConnectEvent::NonblockingSet(Ok(()))),
        ConnectAction::Finish(Err(IoError::Os(111)))
    );
}

#[test]
fn failed_restore_ends_the_call() {
    let mut m = ConnectTimeout::new(Duration::from_secs(1), false);
    m.begin();
    m.step(ConnectEvent::NonblockingSet(Ok(())));
    m.step(ConnectEvent::ConnectReturned(0, 0));
    assert_eq!(
        m.step(ConnectEvent::NonblockingSet(Err(IoError::Os(9)))),
        ConnectAction::Finish(Err(IoError::Os(9)))
    );
}

#[test]
fn resolver_results() {
    assert_eq!(gai_result(0, 5, false, ""), Ok(()));
    assert_eq!(gai_result(EAI_SYSTEM, 5, true, ""), Err(IoError::Os(5)));
    assert_eq!(gai_result(EAI_NODATA, 0, false, ""), Err(IoError::Simple(ErrorKind::NetworkDown)));
    assert_eq!(
        gai_result(EAI_NODATA, 0, true, ""),
        Err(IoError::SimpleMessage(ErrorKind::Other, "an unknown networking error has occurred"))
    );
    let e = gai_result(2, 0, true, "name unknown").unwrap_err();
    assert_eq!(e.kind(), ErrorKind::Other);
    assert_eq!(
        e,
        IoError::Custom(
            ErrorKind::Other,
            "failed to lookup address information: name unknown".to_string()
        )
    );
}
