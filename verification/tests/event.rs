//! The event-driven channel: readiness races, the would-block
//! re-suspension, timer cancellation and the send rule, driven step by
//! step as a host would.

use pru_rproc_user::event::{
    AsyncRpmsg, ReadDirective, ReadEvent, ReadinessState, SendDirective, SendEvent,
};
use pru_rproc_user::rpmsg::RpmsgError;

fn open_line() -> AsyncRpmsg {
    AsyncRpmsg::open_core_by_name("/dev/remoteproc/pruss-core0/uevent", true).unwrap()
}

fn open_raw() -> AsyncRpmsg {
    let present = vec![false, false];
    AsyncRpmsg::open_first(&present, &vec![String::from("rpmsg0")]).unwrap()
}

#[test]
fn open_mirrors_blocking_resolution() {
    let a = AsyncRpmsg::open_core(1, &vec![true, true]).unwrap();
    assert_eq!(a.path().as_str(), "/dev/remoteproc/pruss-core1/uevent");
    assert!(a.is_uevent());
    assert_eq!(a.readiness, ReadinessState::NotRegistered);

    match AsyncRpmsg::open_core(99, &vec![false, false]) {
        Err(RpmsgError::NotFound) => {}
        other => panic!("expected NotFound, got {:?}", other),
    }

    let raw = open_raw();
    assert_eq!(raw.path().as_str(), "/dev/rpmsg0");
    assert!(!raw.is_uevent());
}

#[test]
fn read_suspends_then_delivers_one_reads_bytes() {
    let mut a = open_raw();
    assert!(matches!(a.begin_read(), ReadDirective::AwaitReadable));
    assert!(matches!(a.read_step(ReadEvent::Readable), ReadDirective::Receive));
    match a.read_step(ReadEvent::Received(b"PING".to_vec())) {
        ReadDirective::Deliver(m) => assert_eq!(m, b"PING".to_vec()),
        other => panic!("expected a delivery, got {:?}", other),
    }
    assert_eq!(a.readiness, ReadinessState::NotRegistered);
}

#[test]
fn spurious_would_block_resuspends_without_error() {
    // A stale readable signal under edge-triggered notification: the read
    // must clear it and suspend again — never an error, never a busy loop.
    let mut a = open_raw();
    assert!(matches!(a.begin_read(), ReadDirective::AwaitReadable));
    assert!(matches!(a.read_step(ReadEvent::Readable), ReadDirective::Receive));
    assert!(matches!(a.read_step(ReadEvent::ReceiveWouldBlock), ReadDirective::AwaitReadable));
    assert_eq!(a.readiness, ReadinessState::AwaitingReadable);
    // The genuine signal then completes the same read.
    assert!(matches!(a.read_step(ReadEvent::Readable), ReadDirective::Receive));
    match a.read_step(ReadEvent::Received(b"late".to_vec())) {
        ReadDirective::Deliver(m) => assert_eq!(m, b"late".to_vec()),
        other => panic!("expected a delivery, got {:?}", other),
    }
}

#[test]
fn timer_win_is_no_message_and_cancels_cleanly() {
    // Data scheduled for well after the deadline: the timer wins, the
    // caller sees exactly one outcome — "no message" — and no read is
    // performed, so the data is still there for the next call.
    let mut a = open_line();
    assert!(matches!(a.begin_read(), ReadDirective::AwaitReadable));
    assert!(matches!(a.read_step(ReadEvent::TimerFired), ReadDirective::NoMessage));
    assert_eq!(a.readiness, ReadinessState::NotRegistered);
    assert_eq!(a.chan.pending, Vec::new());

    // ... data becomes available later ...
    assert!(matches!(a.begin_read(), ReadDirective::AwaitReadable));
    assert!(matches!(a.read_step(ReadEvent::Readable), ReadDirective::Receive));
    match a.read_step(ReadEvent::Received(b"ready\n".to_vec())) {
        ReadDirective::Deliver(m) => assert_eq!(m, b"ready\n".to_vec()),
        other => panic!("expected a delivery, got {:?}", other),
    }
}

#[test]
fn buffered_second_line_is_served_without_a_new_wait() {
    let mut a = open_line();
    assert!(matches!(a.begin_read(), ReadDirective::AwaitReadable));
    assert!(matches!(a.read_step(ReadEvent::Readable), ReadDirective::Receive));
    match a.read_step(ReadEvent::Received(b"offline\nonline\n".to_vec())) {
        ReadDirective::Deliver(m) => assert_eq!(m, b"offline\n".to_vec()),
        other => panic!("expected a delivery, got {:?}", other),
    }
    match a.begin_read() {
        ReadDirective::Deliver(m) => assert_eq!(m, b"online\n".to_vec()),
        other => panic!("expected a delivery, got {:?}", other),
    }
    assert!(matches!(a.begin_read(), ReadDirective::AwaitReadable));
    assert!(matches!(a.read_step(ReadEvent::TimerFired), ReadDirective::NoMessage));
}

#[test]
fn wait_failure_surfaces_as_io_error() {
    let mut a = open_raw();
    assert!(matches!(a.begin_read(), ReadDirective::AwaitReadable));
    match a.read_step(ReadEvent::WaitFailed(9)) {
        ReadDirective::Fail(RpmsgError::Io(9)) => {}
        other => panic!("expected an IO failure, got {:?}", other),
    }
}

#[test]
fn end_of_stream_delivers_the_empty_message() {
    let mut a = open_raw();
    assert!(matches!(a.begin_read(), ReadDirective::AwaitReadable));
    assert!(matches!(a.read_step(ReadEvent::Readable), ReadDirective::Receive));
    match a.read_step(ReadEvent::Received(Vec::new())) {
        ReadDirective::Deliver(m) => assert_eq!(m, Vec::<u8>::new()),
        other => panic!("expected a delivery, got {:?}", other),
    }
}

#[test]
fn send_on_notification_is_refused_before_any_wait() {
    let mut a = open_line();
    match a.begin_send() {
        SendDirective::Done(Err(RpmsgError::UnsupportedOperation)) => {}
        other => panic!("expected the unsupported-operation error, got {:?}", other),
    }
    // No wait was entered and no write will be attempted.
    assert_eq!(a.readiness, ReadinessState::NotRegistered);
}

#[test]
fn send_reports_the_single_writes_count() {
    let mut a = open_raw();
    assert!(matches!(a.begin_send(), SendDirective::AwaitWritable));
    assert!(matches!(a.send_step(SendEvent::Writable), SendDirective::Transmit));
    match a.send_step(SendEvent::Wrote(3)) {
        SendDirective::Done(Ok(3)) => {}
        other => panic!("expected a count of 3, got {:?}", other),
    }
}

#[test]
fn send_would_block_is_zero_not_an_error() {
    let mut a = open_raw();
    assert!(matches!(a.begin_send(), SendDirective::AwaitWritable));
    assert!(matches!(a.send_step(SendEvent::Writable), SendDirective::Transmit));
    match a.send_step(SendEvent::WriteWouldBlock) {
        SendDirective::Done(Ok(0)) => {}
        other => panic!("expected a zero count, got {:?}", other),
    }
}

#[test]
fn pipe_scenario_ping_then_ack() {
    // Two ends of a bidirectional pipe, each a byte-stream channel.  One
    // side writes PING; the other reads exactly PING, answers ACK, and
    // the answer's count and bytes are observed on the first side.
    let mut left = open_raw();
    let mut right = open_raw();

    // left writes PING; the host moves the bytes to right's end.
    assert!(matches!(left.begin_send(), SendDirective::AwaitWritable));
    assert!(matches!(left.send_step(SendEvent::Writable), SendDirective::Transmit));
    let carried = b"PING".to_vec();
    match left.send_step(SendEvent::Wrote(carried.len())) {
        SendDirective::Done(Ok(4)) => {}
        other => panic!("expected a count of 4, got {:?}", other),
    }

    assert!(matches!(right.begin_read(), ReadDirective::AwaitReadable));
    assert!(matches!(right.read_step(ReadEvent::Readable), ReadDirective::Receive));
    match right.read_step(ReadEvent::Received(carried)) {
        ReadDirective::Deliver(m) => assert_eq!(m, b"PING".to_vec()),
        other => panic!("expected a delivery, got {:?}", other),
    }

    // right answers ACK.
    assert!(matches!(right.begin_send(), SendDirective::AwaitWritable));
    assert!(matches!(right.send_step(SendEvent::Writable), SendDirective::Transmit));
    let answer = b"ACK".to_vec();
    match right.send_step(SendEvent::Wrote(answer.len())) {
        SendDirective::Done(Ok(3)) => {}
        other => panic!("expected a count of 3, got {:?}", other),
    }

    assert!(matches!(left.begin_read(), ReadDirective::AwaitReadable));
    assert!(matches!(left.read_step(ReadEvent::Readable), ReadDirective::Receive));
    match left.read_step(ReadEvent::Received(answer)) {
        ReadDirective::Deliver(m) => assert_eq!(m, b"ACK".to_vec()),
        other => panic!("expected a delivery, got {:?}", other),
    }
}
