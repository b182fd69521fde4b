//! The event-driven channel: the same read/send contract as the blocking
//! one, over a non-blocking descriptor that suspends on readiness instead
//! of blocking a thread.
//!
//! The channel never touches the descriptor itself.  Each operation is a
//! small state machine: the host reports how its last suspension or call
//! ended (`ReadEvent`, `SendEvent`) and the machine answers with the next
//! thing to do (`ReadDirective`, `SendDirective`).  A spurious would-block
//! after a readable signal re-suspends the read — never a busy loop, never
//! an error — and a deadline that wins the race yields the distinct
//! "no message" outcome while leaving every buffered byte in place.

use vstd::prelude::*;
use crate::rpmsg::{
    ChannelShape, Rpmsg, RpmsgError, WriteOutcome, MAX_MESSAGE, UEVENT_PATH_COUNT,
    spec_message_ready, spec_next_message, spec_remainder, spec_uevent_path,
};

verus! {

/// Where an in-flight event-driven operation stands between suspensions.
/// It is transient: every operation starts and ends at `NotRegistered`.
#[derive(Clone, Copy, Debug, PartialEq, Eq, Structural)]
pub enum ReadinessState {
    /// No operation is waiting on the descriptor.
    NotRegistered,
    /// A read is suspended until the descriptor turns readable.
    AwaitingReadable,
    /// A readiness signal arrived; one non-blocking call may be attempted.
    Ready,
    /// A send is suspended until the descriptor turns writable.
    AwaitingWritable,
}

/// What the host reports to an in-flight event-driven read.
#[derive(Debug)]
pub enum ReadEvent {
    /// The readiness notifier reported the descriptor readable.
    Readable,
    /// The deadline fired before any readiness signal.
    TimerFired,
    /// The readiness notifier itself failed with this OS error code.
    WaitFailed(i32),
    /// One non-blocking read returned these bytes; empty means end-of-stream.
    Received(Vec<u8>),
    /// The non-blocking read found nothing despite the readiness signal.
    ReceiveWouldBlock,
    /// The non-blocking read failed with this OS error code.
    ReceiveFailed(i32),
}

/// What an event-driven read asks of its host next.
#[derive(Debug)]
pub enum ReadDirective {
    /// Suspend until the descriptor is readable, bounded by the deadline
    /// if the caller set one.
    AwaitReadable,
    /// Attempt exactly one bounded non-blocking read.
    Receive,
    /// The read is over: hand this message to the caller.
    Deliver(Vec<u8>),
    /// The deadline won the race: report the distinct "no message" outcome.
    NoMessage,
    /// The read is over with this error.
    Fail(RpmsgError),
}

/// What the host reports to an in-flight event-driven send.
#[derive(Debug)]
pub enum SendEvent {
    /// The readiness notifier reported the descriptor writable.
    Writable,
    /// The readiness notifier itself failed with this OS error code.
    WaitFailed(i32),
    /// One non-blocking write accepted this many bytes.
    Wrote(usize),
    /// The non-blocking write had no room despite the writable signal.
    WriteWouldBlock,
    /// The non-blocking write failed with this OS error code.
    WriteFailed(i32),
}

/// What an event-driven send asks of its host next.
#[derive(Debug)]
pub enum SendDirective {
    /// Suspend until the descriptor is writable.
    AwaitWritable,
    /// Attempt exactly one non-blocking write of the caller's bytes.
    Transmit,
    /// The send is over with this result.
    Done(Result<usize, RpmsgError>),
}

/// The events a read may deliver in a given readiness state.
pub open spec fn read_event_fits(s: ReadinessState, ev: ReadEvent) -> bool {
    match s {
        ReadinessState::AwaitingReadable => ev is Readable || ev is TimerFired || ev is WaitFailed,
        ReadinessState::Ready => ev is Received || ev is ReceiveWouldBlock || ev is ReceiveFailed,
        _ => false,
    }
}

/// The events a send may deliver in a given readiness state.
pub open spec fn send_event_fits(s: ReadinessState, ev: SendEvent) -> bool {
    match s {
        ReadinessState::AwaitingWritable => ev is Writable || ev is WaitFailed,
        ReadinessState::Ready => ev is Wrote || ev is WriteWouldBlock || ev is WriteFailed,
        _ => false,
    }
}

/// An event-driven endpoint: the shared channel state plus the readiness
/// phase of the operation in flight, if any.
#[derive(Debug)]
pub struct AsyncRpmsg {
    /// The channel state shared with the blocking style: path, shape and
    /// buffered bytes.
    pub chan: Rpmsg,
    /// Phase of the operation in flight.
    pub readiness: ReadinessState,
}

impl AsyncRpmsg {
    /// Non-blocking counterpart of `Rpmsg::open_first`: the same
    /// resolution, with the descriptor to be opened in non-blocking mode
    /// and registered with the host's readiness notifier.
    pub fn open_first(present: &Vec<bool>, raw_names: &Vec<String>) -> (r: Result<
        AsyncRpmsg,
        RpmsgError,
    >)
        requires
            present@.len() == UEVENT_PATH_COUNT,
        ensures
            present@[0] ==> (r matches Ok(a) && a.chan.shape is LineNotification && a.chan.path@
                == spec_uevent_path(0) && a.chan.pending@.len() == 0 && !a.chan.at_eof
                && a.readiness is NotRegistered),
            !present@[0] && present@[1] ==> (r matches Ok(a) && a.chan.shape is LineNotification
                && a.chan.path@ == spec_uevent_path(1) && a.chan.pending@.len() == 0
                && !a.chan.at_eof && a.readiness is NotRegistered),
            !present@[0] && !present@[1] && raw_names@.len() > 0 ==> (r matches Ok(a)
                && a.chan.shape is RawByteStream && a.chan.path@ == "/dev/"@ + raw_names@[0]@
                && a.chan.pending@.len() == 0 && !a.chan.at_eof
                && a.readiness is NotRegistered),
            !present@[0] && !present@[1] && raw_names@.len() == 0 ==> r == Err::<
                AsyncRpmsg,
                RpmsgError,
            >(RpmsgError::NotFound),
    {
        match Rpmsg::open_first(present, raw_names) {
            Ok(c) => Ok(AsyncRpmsg { chan: c, readiness: ReadinessState::NotRegistered }),
            Err(e) => Err(e),
        }
    }

    /// Non-blocking counterpart of `Rpmsg::open_core`.
    pub fn open_core(core: usize, present: &Vec<bool>) -> (r: Result<AsyncRpmsg, RpmsgError>)
        requires
            present@.len() == UEVENT_PATH_COUNT,
        ensures
            core < UEVENT_PATH_COUNT && present@[core as int] ==> (r matches Ok(a)
                && a.chan.shape is LineNotification && a.chan.path@ == spec_uevent_path(
                core as int,
            ) && a.chan.pending@.len() == 0 && !a.chan.at_eof && a.readiness is NotRegistered),
            !(core < UEVENT_PATH_COUNT && present@[core as int]) ==> r == Err::<
                AsyncRpmsg,
                RpmsgError,
            >(RpmsgError::NotFound),
    {
        match Rpmsg::open_core(core, present) {
            Ok(c) => Ok(AsyncRpmsg { chan: c, readiness: ReadinessState::NotRegistered }),
            Err(e) => Err(e),
        }
    }

    /// Non-blocking counterpart of `Rpmsg::open_core_by_name`.
    pub fn open_core_by_name(path: &str, exists: bool) -> (r: Result<AsyncRpmsg, RpmsgError>)
        ensures
            exists ==> (r matches Ok(a) && a.chan.shape is LineNotification && a.chan.path@
                == path@ && a.chan.pending@.len() == 0 && !a.chan.at_eof
                && a.readiness is NotRegistered),
            !exists ==> r == Err::<AsyncRpmsg, RpmsgError>(RpmsgError::NotFound),
    {
        match Rpmsg::open_core_by_name(path, exists) {
            Ok(c) => Ok(AsyncRpmsg { chan: c, readiness: ReadinessState::NotRegistered }),
            Err(e) => Err(e),
        }
    }

    /// The path this channel was resolved to.
    pub fn path(&self) -> (p: &String)
        ensures
            p == self.chan.path,
    {
        &self.chan.path
    }

    /// Whether the endpoint is a read-only notification file.
    pub fn is_uevent(&self) -> (r: bool)
        ensures
            r == (self.chan.shape is LineNotification),
    {
        self.chan.is_uevent()
    }

    /// Start an event-driven read.  Bytes already buffered are served
    /// first; only when none form a message does the read suspend.
    pub fn begin_read(&mut self) -> (d: ReadDirective)
        requires
            old(self).readiness is NotRegistered,
        ensures
            final(self).chan.path == old(self).chan.path,
            final(self).chan.shape == old(self).chan.shape,
            final(self).chan.at_eof == old(self).chan.at_eof,
            spec_message_ready(
                old(self).chan.shape,
                old(self).chan.pending@,
                old(self).chan.at_eof,
            ) ==> (d matches ReadDirective::Deliver(m) && m@ == spec_next_message(
                old(self).chan.shape,
                old(self).chan.pending@,
                old(self).chan.at_eof,
            ) && final(self).chan.pending@ == spec_remainder(
                old(self).chan.shape,
                old(self).chan.pending@,
                old(self).chan.at_eof,
            ) && final(self).readiness is NotRegistered),
            !spec_message_ready(
                old(self).chan.shape,
                old(self).chan.pending@,
                old(self).chan.at_eof,
            ) ==> (d is AwaitReadable && final(self).chan.pending == old(self).chan.pending
                && final(self).readiness is AwaitingReadable),
    {
        match self.chan.poll_message() {
            Some(m) => ReadDirective::Deliver(m),
            None => {
                self.readiness = ReadinessState::AwaitingReadable;
                ReadDirective::AwaitReadable
            },
        }
    }

    /// Advance an event-driven read by one host event.
    ///
    /// A fired deadline ends the read with the distinct "no message"
    /// outcome and leaves every buffered byte in place, so an expired wait
    /// loses no data.  A would-block after a readable signal re-suspends
    /// the read.  The read delivers a message only through the shared
    /// decode rule, and reports "no message" only for a fired deadline.
    pub fn read_step(&mut self, ev: ReadEvent) -> (d: ReadDirective)
        requires
            read_event_fits(old(self).readiness, ev),
            ev matches ReadEvent::Received(chunk) ==> chunk@.len() <= MAX_MESSAGE && (old(
                self,
            ).chan.shape is RawByteStream ==> old(self).chan.pending@.len() == 0),
        ensures
            final(self).chan.path == old(self).chan.path,
            final(self).chan.shape == old(self).chan.shape,
            d is NoMessage <==> ev is TimerFired,
            ev is Readable ==> (d is Receive && final(self).readiness is Ready && final(self).chan
                == old(self).chan),
            ev is TimerFired ==> (d is NoMessage && final(self).readiness is NotRegistered
                && final(self).chan == old(self).chan),
            ev matches ReadEvent::WaitFailed(e) ==> (d == ReadDirective::Fail(RpmsgError::Io(e))
                && final(self).readiness is NotRegistered && final(self).chan == old(self).chan),
            ev is ReceiveWouldBlock ==> (d is AwaitReadable
                && final(self).readiness is AwaitingReadable && final(self).chan == old(
                self,
            ).chan),
            ev matches ReadEvent::ReceiveFailed(e) ==> (d == ReadDirective::Fail(
                RpmsgError::Io(e),
            ) && final(self).readiness is NotRegistered && final(self).chan == old(self).chan),
            ev matches ReadEvent::Received(chunk) ==> ({
                let fed = if chunk@.len() == 0 {
                    old(self).chan.pending@
                } else {
                    old(self).chan.pending@ + chunk@
                };
                let ended = chunk@.len() == 0 || old(self).chan.at_eof;
                &&& final(self).chan.at_eof == ended
                &&& if spec_message_ready(old(self).chan.shape, fed, ended) {
                    &&& d matches ReadDirective::Deliver(m) && m@ == spec_next_message(
                        old(self).chan.shape,
                        fed,
                        ended,
                    )
                    &&& final(self).chan.pending@ == spec_remainder(
                        old(self).chan.shape,
                        fed,
                        ended,
                    )
                    &&& final(self).readiness is NotRegistered
                } else {
                    &&& d is AwaitReadable
                    &&& final(self).chan.pending@ == fed
                    &&& final(self).readiness is AwaitingReadable
                }
            }),
    {
        match ev {
            ReadEvent::Readable => {
                self.readiness = ReadinessState::Ready;
                ReadDirective::Receive
            },
            ReadEvent::TimerFired => {
                self.readiness = ReadinessState::NotRegistered;
                ReadDirective::NoMessage
            },
            ReadEvent::WaitFailed(e) => {
                self.readiness = ReadinessState::NotRegistered;
                ReadDirective::Fail(RpmsgError::Io(e))
            },
            ReadEvent::Received(chunk) => {
                self.chan.feed(chunk);
                match self.chan.poll_message() {
                    Some(m) => {
                        self.readiness = ReadinessState::NotRegistered;
                        ReadDirective::Deliver(m)
                    },
                    None => {
                        self.readiness = ReadinessState::AwaitingReadable;
                        ReadDirective::AwaitReadable
                    },
                }
            },
            ReadEvent::ReceiveWouldBlock => {
                self.readiness = ReadinessState::AwaitingReadable;
                ReadDirective::AwaitReadable
            },
            ReadEvent::ReceiveFailed(e) => {
                self.readiness = ReadinessState::NotRegistered;
                ReadDirective::Fail(RpmsgError::Io(e))
            },
        }
    }

    /// Start an event-driven send.  A notification endpoint is refused
    /// outright with the unsupported-operation error: no wait is entered
    /// and no write will be attempted.
    pub fn begin_send(&mut self) -> (d: SendDirective)
        requires
            old(self).readiness is NotRegistered,
        ensures
            final(self).chan == old(self).chan,
            old(self).chan.shape is LineNotification ==> (d == SendDirective::Done(
                Err::<usize, RpmsgError>(RpmsgError::UnsupportedOperation),
            ) && final(self).readiness is NotRegistered),
            old(self).chan.shape is RawByteStream ==> (d is AwaitWritable
                && final(self).readiness is AwaitingWritable),
    {
        match self.chan.check_send() {
            Ok(_) => {
                self.readiness = ReadinessState::AwaitingWritable;
                SendDirective::AwaitWritable
            },
            Err(e) => SendDirective::Done(Err(e)),
        }
    }

    /// Advance an event-driven send by one host event.  Exactly one write
    /// is attempted; a would-block after the writable signal ends the send
    /// with a count of zero — "nothing sent this call", not an error.
    pub fn send_step(&mut self, ev: SendEvent) -> (d: SendDirective)
        requires
            old(self).chan.shape is RawByteStream,
            send_event_fits(old(self).readiness, ev),
        ensures
            final(self).chan == old(self).chan,
            ev is Writable ==> (d is Transmit && final(self).readiness is Ready),
            ev matches SendEvent::WaitFailed(e) ==> (d == SendDirective::Done(
                Err::<usize, RpmsgError>(RpmsgError::Io(e)),
            ) && final(self).readiness is NotRegistered),
            ev matches SendEvent::Wrote(n) ==> (d == SendDirective::Done(
                Ok::<usize, RpmsgError>(n),
            ) && final(self).readiness is NotRegistered),
            ev is WriteWouldBlock ==> (d == SendDirective::Done(Ok::<usize, RpmsgError>(0))
                && final(self).readiness is NotRegistered),
            ev matches SendEvent::WriteFailed(e) ==> (d == SendDirective::Done(
                Err::<usize, RpmsgError>(RpmsgError::Io(e)),
            ) && final(self).readiness is NotRegistered),
    {
        match ev {
            SendEvent::Writable => {
                self.readiness = ReadinessState::Ready;
                SendDirective::Transmit
            },
            SendEvent::WaitFailed(e) => {
                self.readiness = ReadinessState::NotRegistered;
                SendDirective::Done(Err(RpmsgError::Io(e)))
            },
            SendEvent::Wrote(n) => {
                self.readiness = ReadinessState::NotRegistered;
                SendDirective::Done(self.chan.complete_send(&WriteOutcome::Wrote(n)))
            },
            SendEvent::WriteWouldBlock => {
                self.readiness = ReadinessState::NotRegistered;
                SendDirective::Done(self.chan.complete_send(&WriteOutcome::WouldBlock))
            },
            SendEvent::WriteFailed(e) => {
                self.readiness = ReadinessState::NotRegistered;
                SendDirective::Done(self.chan.complete_send(&WriteOutcome::Failed(e)))
            },
        }
    }
}

} // verus!
